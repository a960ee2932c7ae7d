//! Lexical tokens, their mathematical view, and the character and string
//! classification helpers shared by the lexer.

use vstd::prelude::*;
use crate::symbol::{Symbol, spec_char_symbol, spec_parse_symbol, char_as_symbol, parse_symbol};
use crate::keyword::{Keyword, spec_parse_keyword, parse_keyword};
use crate::function::{Function, spec_parse_function, parse_function};
use crate::chars::{spec_is_terminator_char, is_terminator_char};

verus! {

/// One lexical unit of query text. Text-carrying variants keep the raw
/// source characters: numbers are not converted, quoted literals become
/// identifiers without their quotes, and bind variables drop their `@`.
#[derive(Debug, PartialEq)]
pub enum Token {
    Keyword(Keyword),
    Symbol(Symbol),
    Function(Function),
    Identifier(String),
    Variable(String),
    Number(String),
    Comment(String),
}

impl Clone for Token {
    /// A clone carries the same view.
    fn clone(&self) -> (r: Token)
        ensures
            r@ == self@,
    {
        match self {
            Token::Keyword(k) => Token::Keyword(*k),
            Token::Symbol(s) => Token::Symbol(*s),
            Token::Function(f) => Token::Function(*f),
            Token::Identifier(s) => Token::Identifier(s.clone()),
            Token::Variable(s) => Token::Variable(s.clone()),
            Token::Number(s) => Token::Number(s.clone()),
            Token::Comment(s) => Token::Comment(s.clone()),
        }
    }
}

/// The mathematical view of a [`Token`]: the same shape with character
/// sequences in place of owned strings.
#[verifier::ext_equal]
pub enum TokenV {
    Keyword(Keyword),
    Symbol(Symbol),
    Function(Function),
    Identifier(Seq<char>),
    Variable(Seq<char>),
    Number(Seq<char>),
    Comment(Seq<char>),
}

impl View for Token {
    type V = TokenV;

    open spec fn view(&self) -> TokenV {
        match self {
            Token::Keyword(k) => TokenV::Keyword(*k),
            Token::Symbol(s) => TokenV::Symbol(*s),
            Token::Function(f) => TokenV::Function(*f),
            Token::Identifier(s) => TokenV::Identifier(s@),
            Token::Variable(s) => TokenV::Variable(s@),
            Token::Number(s) => TokenV::Number(s@),
            Token::Comment(s) => TokenV::Comment(s@),
        }
    }
}

impl DeepView for Token {
    type V = TokenV;

    open spec fn deep_view(&self) -> TokenV {
        self.view()
    }
}

impl TokenV {
    /// The source text of the token: a keyword, symbol or function name in
    /// its canonical spelling, or the raw text a carrying token holds.
    pub open spec fn spec_text(&self) -> Seq<char> {
        match self {
            TokenV::Keyword(k) => k.spec_text(),
            TokenV::Symbol(s) => s.spec_text(),
            TokenV::Function(f) => f.spec_text(),
            TokenV::Identifier(s) => *s,
            TokenV::Variable(s) => *s,
            TokenV::Number(s) => *s,
            TokenV::Comment(s) => *s,
        }
    }

    /// Whether the token is a symbol counted as an operator.
    pub open spec fn is_operator(&self) -> bool {
        match self {
            TokenV::Symbol(s) => s.spec_is_operator(),
            _ => false,
        }
    }

    /// The symbol the token carries, if it is a symbol token.
    pub open spec fn as_symbol(&self) -> Option<Symbol> {
        match self {
            TokenV::Symbol(s) => Some(*s),
            _ => None,
        }
    }

    /// The keyword the token carries, if it is a keyword token.
    pub open spec fn as_keyword(&self) -> Option<Keyword> {
        match self {
            TokenV::Keyword(k) => Some(*k),
            _ => None,
        }
    }

    /// Whether the token terminates a statement: `;` or `/`.
    pub open spec fn is_terminator(&self) -> bool {
        match self {
            TokenV::Symbol(Symbol::Semicolon) | TokenV::Symbol(Symbol::Slash) => true,
            _ => false,
        }
    }
}

impl Token {
    /// Serialize the token back to source text.
    pub fn to_text(&self) -> (r: String)
        ensures
            r@ == self@.spec_text(),
    {
        match self {
            Token::Keyword(k) => k.to_text(),
            Token::Symbol(s) => s.to_text(),
            Token::Function(f) => f.to_text(),
            Token::Identifier(s) => s.clone(),
            Token::Variable(s) => s.clone(),
            Token::Number(s) => s.clone(),
            Token::Comment(s) => s.clone(),
        }
    }

    /// Whether the token is a symbol counted as an operator.
    pub fn is_operator(&self) -> (r: bool)
        ensures
            r == self@.is_operator(),
    {
        match self {
            Token::Symbol(s) => s.is_operator(),
            _ => false,
        }
    }

    /// The symbol the token carries, if it is a symbol token.
    pub fn as_symbol(&self) -> (r: Option<Symbol>)
        ensures
            r == self@.as_symbol(),
    {
        match self {
            Token::Symbol(s) => Some(*s),
            _ => None,
        }
    }

    /// The keyword the token carries, if it is a keyword token.
    pub fn as_keyword(&self) -> (r: Option<Keyword>)
        ensures
            r == self@.as_keyword(),
    {
        match self {
            Token::Keyword(k) => Some(*k),
            _ => None,
        }
    }

    /// Whether the token terminates a statement: `;` or `/`.
    pub fn is_terminator(&self) -> (r: bool)
        ensures
            r == self@.is_terminator(),
    {
        match self {
            Token::Symbol(Symbol::Semicolon) | Token::Symbol(Symbol::Slash) => true,
            _ => false,
        }
    }
}

/// Collect the characters at `from` for as long as they stay inside the
/// class `k`, returning the collected text and the position after it: the
/// first position whose character falls outside the class, or the end.
pub fn collect_until(v: &Vec<char>, from: usize, k: crate::chars::CharClass) -> (r: (
    String,
    usize,
))
    requires
        from <= v@.len(),
    ensures
        r.1 == crate::chars::spec_run_end(v@, from as int, k),
        from <= r.1 <= v@.len(),
        r.0@ == v@.subrange(from as int, r.1 as int),
{
    let e = crate::chars::run_end(v, from, k);
    (crate::chars::string_of_range(v, from, e), e)
}

/// Collect the characters at `from` through the first one that falls
/// outside the class `k`, that character included; without one the rest of
/// the text is collected. Returns the collected text and the position
/// after it.
pub fn collect_to(v: &Vec<char>, from: usize, k: crate::chars::CharClass) -> (r: (String, usize))
    requires
        from <= v@.len(),
    ensures
        ({
            let e = crate::chars::spec_run_end(v@, from as int, k);
            let stop = if e < v@.len() {
                e + 1
            } else {
                e
            };
            r.1 == stop && from <= r.1 <= v@.len() && r.0@ == v@.subrange(from as int, stop)
        }),
{
    proof {
        crate::chars::lemma_run_end(v@, from as int, k);
    }
    let e = crate::chars::run_end(v, from, k);
    let stop = if e < v.len() {
        e + 1
    } else {
        e
    };
    (crate::chars::string_of_range(v, from, stop), stop)
}

/// Character classification as the lexer sees it.
pub trait SqlCharExt {
    /// Whether the character may open or continue a symbol run.
    fn is_symbol(&self) -> bool;

    /// The symbol this single character spells, if any.
    fn as_symbol(&self) -> Option<Symbol>;

    /// Whether the character terminates a statement.
    fn is_terminator(&self) -> bool;
}

impl SqlCharExt for char {
    fn is_symbol(&self) -> (r: bool)
        ensures
            r == crate::chars::spec_is_symbol_char(*self),
    {
        crate::chars::is_symbol_char(*self)
    }

    fn as_symbol(&self) -> (r: Option<Symbol>)
        ensures
            r == spec_char_symbol(*self),
    {
        char_as_symbol(*self)
    }

    fn is_terminator(&self) -> (r: bool)
        ensures
            r == spec_is_terminator_char(*self),
    {
        is_terminator_char(*self)
    }
}

/// String classification as the lexer sees it.
pub trait SqlStringExt {
    /// Whether the text spells a keyword.
    fn is_keyword(&self) -> bool;

    /// Whether the text spells a built-in function name.
    fn is_function(&self) -> bool;

    /// The keyword the text spells, if any.
    fn as_keyword(&self) -> Option<Keyword>;

    /// The symbol the text spells, if any.
    fn as_symbol(&self) -> Option<Symbol>;

    /// The built-in function the text names, if any.
    fn as_function(&self) -> Option<Function>;
}

impl SqlStringExt for String {
    fn is_keyword(&self) -> (r: bool)
        ensures
            r == spec_parse_keyword(self@).is_some(),
    {
        parse_keyword(self.as_str()).is_some()
    }

    fn is_function(&self) -> (r: bool)
        ensures
            r == spec_parse_function(self@).is_some(),
    {
        crate::function::is_function(self.as_str())
    }

    fn as_keyword(&self) -> (r: Option<Keyword>)
        ensures
            r == spec_parse_keyword(self@),
    {
        parse_keyword(self.as_str())
    }

    fn as_symbol(&self) -> (r: Option<Symbol>)
        ensures
            r == spec_parse_symbol(self@),
    {
        parse_symbol(self.as_str())
    }

    fn as_function(&self) -> (r: Option<Function>)
        ensures
            r == spec_parse_function(self@),
    {
        parse_function(self.as_str())
    }
}

} // verus!
