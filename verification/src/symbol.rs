//! Punctuation and operator symbols of the query language.

use vstd::prelude::*;
use vstd::string::StrSliceExecFns;

verus! {

/// A punctuation or operator symbol. Each variant names one piece of
/// punctuation the lexer can produce: separators, arithmetic operators,
/// comparators, parentheses and the statement terminator.
#[derive(Debug, PartialEq, Eq, Structural, Clone, Copy)]
pub enum Symbol {
    Comma,
    Dot,
    Asterisk,
    Plus,
    Minus,
    Slash,
    Percent,
    Equal,
    NotEqual,
    LessThan,
    GreaterThan,
    LessThanOrEqual,
    GreaterThanOrEqual,
    LeftParen,
    RightParen,
    Semicolon,
}

impl Symbol {
    /// Whether the symbol is an operator in the broad sense: punctuation
    /// that may appear inside an expression, as opposed to a comparator
    /// or the statement terminator.
    pub open spec fn spec_is_operator(&self) -> bool {
        match self {
            Symbol::Comma
            | Symbol::Dot
            | Symbol::Asterisk
            | Symbol::Plus
            | Symbol::Minus
            | Symbol::Slash
            | Symbol::Percent
            | Symbol::LeftParen
            | Symbol::RightParen => true,
            _ => false,
        }
    }

    #[verifier::when_used_as_spec(spec_is_operator)]
    pub fn is_operator(&self) -> (r: bool)
        ensures
            r == self.spec_is_operator(),
    {
        match self {
            Symbol::Comma
            | Symbol::Dot
            | Symbol::Asterisk
            | Symbol::Plus
            | Symbol::Minus
            | Symbol::Slash
            | Symbol::Percent
            | Symbol::LeftParen
            | Symbol::RightParen => true,
            _ => false,
        }
    }

    /// Whether the symbol compares two values: these are the only symbols
    /// allowed as the operator of a comparison condition.
    pub open spec fn spec_is_comparator(&self) -> bool {
        match self {
            Symbol::Equal
            | Symbol::NotEqual
            | Symbol::LessThan
            | Symbol::GreaterThan
            | Symbol::LessThanOrEqual
            | Symbol::GreaterThanOrEqual => true,
            _ => false,
        }
    }

    #[verifier::when_used_as_spec(spec_is_comparator)]
    pub fn is_comparator(&self) -> (r: bool)
        ensures
            r == self.spec_is_comparator(),
    {
        match self {
            Symbol::Equal
            | Symbol::NotEqual
            | Symbol::LessThan
            | Symbol::GreaterThan
            | Symbol::LessThanOrEqual
            | Symbol::GreaterThanOrEqual => true,
            _ => false,
        }
    }

    /// Relative binding strength of an arithmetic operator: multiplicative
    /// operators bind tighter than additive ones, and everything else has
    /// no arithmetic priority.
    pub open spec fn spec_get_priority(&self) -> i32 {
        match self {
            Symbol::Plus | Symbol::Minus => 1,
            Symbol::Asterisk | Symbol::Slash => 2,
            _ => 0,
        }
    }

    #[verifier::when_used_as_spec(spec_get_priority)]
    pub fn get_priority(&self) -> (r: i32)
        ensures
            r == self.spec_get_priority(),
    {
        match self {
            Symbol::Plus | Symbol::Minus => 1,
            Symbol::Asterisk | Symbol::Slash => 2,
            _ => 0,
        }
    }

    /// The text the symbol is written as in query source.
    pub open spec fn spec_text(&self) -> Seq<char> {
        match self {
            Symbol::Comma => seq![','],
            Symbol::Dot => seq!['.'],
            Symbol::Asterisk => seq!['*'],
            Symbol::Plus => seq!['+'],
            Symbol::Minus => seq!['-'],
            Symbol::Slash => seq!['/'],
            Symbol::Percent => seq!['%'],
            Symbol::Equal => seq!['='],
            Symbol::NotEqual => seq!['!', '='],
            Symbol::LessThan => seq!['<'],
            Symbol::GreaterThan => seq!['>'],
            Symbol::LessThanOrEqual => seq!['<', '='],
            Symbol::GreaterThanOrEqual => seq!['>', '='],
            Symbol::LeftParen => seq!['('],
            Symbol::RightParen => seq![')'],
            Symbol::Semicolon => seq![';'],
        }
    }

    /// Serialize the symbol back to query text.
    pub fn to_text(&self) -> (r: String)
        ensures
            r@ == self.spec_text(),
    {
        let text = match self {
            Symbol::Comma => ",",
            Symbol::Dot => ".",
            Symbol::Asterisk => "*",
            Symbol::Plus => "+",
            Symbol::Minus => "-",
            Symbol::Slash => "/",
            Symbol::Percent => "%",
            Symbol::Equal => "=",
            Symbol::NotEqual => "!=",
            Symbol::LessThan => "<",
            Symbol::GreaterThan => ">",
            Symbol::LessThanOrEqual => "<=",
            Symbol::GreaterThanOrEqual => ">=",
            Symbol::LeftParen => "(",
            Symbol::RightParen => ")",
            Symbol::Semicolon => ";",
        };
        proof {
            reveal_strlit(",");
            reveal_strlit(".");
            reveal_strlit("*");
            reveal_strlit("+");
            reveal_strlit("-");
            reveal_strlit("/");
            reveal_strlit("%");
            reveal_strlit("=");
            reveal_strlit("!=");
            reveal_strlit("<");
            reveal_strlit(">");
            reveal_strlit("<=");
            reveal_strlit(">=");
            reveal_strlit("(");
            reveal_strlit(")");
            reveal_strlit(";");
            assert(text@ =~= self.spec_text());
        }
        text.to_owned()
    }
}

/// The symbol, if any, written as the single character `c`.
/// `!` is a symbol character (it opens `!=`) but no complete symbol alone.
pub open spec fn spec_char_symbol(c: char) -> Option<Symbol> {
    match c {
        ',' => Some(Symbol::Comma),
        '.' => Some(Symbol::Dot),
        '*' => Some(Symbol::Asterisk),
        '+' => Some(Symbol::Plus),
        '-' => Some(Symbol::Minus),
        '/' => Some(Symbol::Slash),
        '%' => Some(Symbol::Percent),
        '=' => Some(Symbol::Equal),
        '<' => Some(Symbol::LessThan),
        '>' => Some(Symbol::GreaterThan),
        '(' => Some(Symbol::LeftParen),
        ')' => Some(Symbol::RightParen),
        ';' => Some(Symbol::Semicolon),
        _ => None,
    }
}

/// The symbol, if any, that the character sequence `s` spells: a single
/// symbol character, or one of the two-character comparators `!=`, `<=`, `>=`.
pub open spec fn spec_parse_symbol(s: Seq<char>) -> Option<Symbol> {
    if s.len() == 1 {
        spec_char_symbol(s[0])
    } else if s.len() == 2 && s[1] == '=' {
        match s[0] {
            '!' => Some(Symbol::NotEqual),
            '<' => Some(Symbol::LessThanOrEqual),
            '>' => Some(Symbol::GreaterThanOrEqual),
            _ => None,
        }
    } else {
        None
    }
}

/// Classify a piece of text as a symbol, if it spells exactly one.
pub fn parse_symbol(s: &str) -> (r: Option<Symbol>)
    ensures
        r == spec_parse_symbol(s@),
{
    let n = s.unicode_len();
    if n == 1 {
        char_as_symbol(s.get_char(0))
    } else if n == 2 && s.get_char(1) == '=' {
        match s.get_char(0) {
            '!' => Some(Symbol::NotEqual),
            '<' => Some(Symbol::LessThanOrEqual),
            '>' => Some(Symbol::GreaterThanOrEqual),
            _ => None,
        }
    } else {
        None
    }
}

/// Classify a character run as a symbol, if it spells exactly one.
pub fn parse_symbol_chars(v: &Vec<char>) -> (r: Option<Symbol>)
    ensures
        r == spec_parse_symbol(v@),
{
    if v.len() == 1 {
        char_as_symbol(v[0])
    } else if v.len() == 2 && v[1] == '=' {
        match v[0] {
            '!' => Some(Symbol::NotEqual),
            '<' => Some(Symbol::LessThanOrEqual),
            '>' => Some(Symbol::GreaterThanOrEqual),
            _ => None,
        }
    } else {
        None
    }
}

/// Exec counterpart of [`spec_char_symbol`].
pub fn char_as_symbol(c: char) -> (r: Option<Symbol>)
    ensures
        r == spec_char_symbol(c),
{
    match c {
        ',' => Some(Symbol::Comma),
        '.' => Some(Symbol::Dot),
        '*' => Some(Symbol::Asterisk),
        '+' => Some(Symbol::Plus),
        '-' => Some(Symbol::Minus),
        '/' => Some(Symbol::Slash),
        '%' => Some(Symbol::Percent),
        '=' => Some(Symbol::Equal),
        '<' => Some(Symbol::LessThan),
        '>' => Some(Symbol::GreaterThan),
        '(' => Some(Symbol::LeftParen),
        ')' => Some(Symbol::RightParen),
        ';' => Some(Symbol::Semicolon),
        _ => None,
    }
}

} // verus!
