//! The lexer: one left-to-right pass over the query text producing the
//! token sequence.
//!
//! Lexing never fails: malformed fragments become identifiers, an unknown
//! symbol run is dropped, and any other unrecognized character is skipped.
//! Word characters are letters, digits and underscore, Unicode
//! alphanumerics included; keyword and function-name matching is
//! case-insensitive. A compound keyword prefix
//! (`GROUP`, `ORDER`, `INNER`, `LEFT`, `RIGHT`, `FULL`) consumes its
//! continuation words only when they follow; a bare prefix stays an
//! identifier. A word that names a built-in function becomes a function
//! token only when a `(` follows it immediately.

use vstd::prelude::*;
use crate::chars::{
    spec_is_space, is_space, spec_is_digit, is_digit, spec_is_symbol_char, is_symbol_char,
    spec_is_terminator_char, is_terminator_char, spec_is_word_char, is_word_char, spec_upper_seq,
    upper_vec, spec_run_end, lemma_run_end, run_end, chars_range, chars_eq_str, str_chars,
    string_of_range, CharClass, lemma_deep_view_chars,
};
use crate::symbol::{Symbol, spec_parse_symbol, parse_symbol_chars};
use crate::keyword::{Keyword, spec_expects_continuation, expects_continuation, spec_single_keyword, single_keyword};
use crate::function::{spec_function_of_word, function_of_word};
use crate::token::{Token, TokenV};

verus! {

broadcast use lemma_deep_view_chars;

/// The view of an optional token.
pub open spec fn opt_token_view(o: Option<Token>) -> Option<TokenV> {
    match o {
        Some(t) => Some(t@),
        None => None,
    }
}

/// One lexing step on a word: classify the word run starting at `pos` as a
/// function name, a compound or single keyword, or an identifier, and give
/// the position to resume at.
pub open spec fn spec_lex_word_step(s: Seq<char>, pos: int) -> (Option<TokenV>, int) {
    let e1 = spec_run_end(s, pos, CharClass::Word);
    let word1 = s.subrange(pos, e1);
    let u1 = spec_upper_seq(word1);
    if spec_function_of_word(u1) is Some && e1 < s.len() && s[e1] == '(' {
        match spec_function_of_word(u1) {
            Some(f) => (Some(TokenV::Function(f)), e1),
            None => (None, e1),
        }
    } else if spec_expects_continuation(u1) {
        let b2 = spec_run_end(s, e1, CharClass::Space);
        let e2 = spec_run_end(s, b2, CharClass::Word);
        let u2 = spec_upper_seq(s.subrange(b2, e2));
        if (u1 == "GROUP"@ || u1 == "ORDER"@) && u2 == "BY"@ {
            (
                Some(
                    TokenV::Keyword(
                        if u1 == "GROUP"@ {
                            Keyword::GroupBy
                        } else {
                            Keyword::OrderBy
                        },
                    ),
                ),
                e2,
            )
        } else if u1 == "INNER"@ && u2 == "JOIN"@ {
            (Some(TokenV::Keyword(Keyword::InnerJoin)), e2)
        } else if u1 == "RIGHT"@ && u2 == "JOIN"@ {
            (Some(TokenV::Keyword(Keyword::RightJoin)), e2)
        } else if u1 == "FULL"@ && u2 == "JOIN"@ {
            (Some(TokenV::Keyword(Keyword::FullJoin)), e2)
        } else if u1 == "LEFT"@ && u2 == "JOIN"@ {
            (Some(TokenV::Keyword(Keyword::LeftJoin)), e2)
        } else if u1 == "LEFT"@ && u2 == "OUTER"@ {
            let b3 = spec_run_end(s, e2, CharClass::Space);
            let e3 = spec_run_end(s, b3, CharClass::Word);
            let u3 = spec_upper_seq(s.subrange(b3, e3));
            if u3 == "JOIN"@ {
                (Some(TokenV::Keyword(Keyword::LeftJoin)), e3)
            } else {
                (Some(TokenV::Identifier(word1)), e1)
            }
        } else {
            (Some(TokenV::Identifier(word1)), e1)
        }
    } else {
        match spec_single_keyword(u1) {
            Some(k) => (Some(TokenV::Keyword(k)), e1),
            None => (Some(TokenV::Identifier(word1)), e1),
        }
    }
}

/// One lexing step: the token produced at `pos`, if any, and the position
/// to resume at. In order: whitespace is skipped; `--` opens a line
/// comment whose body runs to the next newline; a terminator stands as its
/// own symbol token; a quote opens a literal that becomes an identifier; a
/// `@` opens a bind variable; a digit opens a number; a symbol character
/// opens a symbol run that stops before any terminator; a word character
/// opens a word; anything else is skipped.
pub open spec fn spec_lex_step(s: Seq<char>, pos: int) -> (Option<TokenV>, int)
    recommends
        0 <= pos < s.len(),
{
    let c = s[pos];
    if spec_is_space(c) {
        (None, pos + 1)
    } else if c == '-' && pos + 1 < s.len() && s[pos + 1] == '-' {
        let e = spec_run_end(s, pos + 2, CharClass::NotChar('\n'));
        (Some(TokenV::Comment(s.subrange(pos + 2, e))), e)
    } else if spec_is_terminator_char(c) {
        (
            Some(
                TokenV::Symbol(
                    if c == ';' {
                        Symbol::Semicolon
                    } else {
                        Symbol::Slash
                    },
                ),
            ),
            pos + 1,
        )
    } else if c == '\'' || c == '"' {
        let e = spec_run_end(s, pos + 1, CharClass::NotChar(c));
        (
            Some(TokenV::Identifier(s.subrange(pos + 1, e))),
            if e < s.len() {
                e + 1
            } else {
                e
            },
        )
    } else if c == '@' {
        let e = spec_run_end(s, pos + 1, CharClass::Word);
        (Some(TokenV::Variable(s.subrange(pos + 1, e))), e)
    } else if spec_is_digit(c) {
        let e = spec_run_end(s, pos, CharClass::Number);
        (Some(TokenV::Number(s.subrange(pos, e))), e)
    } else if spec_is_symbol_char(c) {
        let e = spec_run_end(s, pos, CharClass::SymbolRun);
        match spec_parse_symbol(s.subrange(pos, e)) {
            Some(sym) => (Some(TokenV::Symbol(sym)), e),
            None => (None, e),
        }
    } else if spec_is_word_char(c) {
        spec_lex_word_step(s, pos)
    } else {
        (None, pos + 1)
    }
}

/// A run that opens with a character of its own class ends past it.
pub proof fn lemma_run_end_strict(s: Seq<char>, pos: int, k: CharClass)
    requires
        0 <= pos < s.len(),
        crate::chars::spec_in_class(s[pos], k),
    ensures
        pos < spec_run_end(s, pos, k) <= s.len(),
{
    lemma_run_end(s, pos + 1, k);
}

/// Every lexing step moves forward and stays within the text.
pub proof fn lemma_lex_step(s: Seq<char>, pos: int)
    requires
        0 <= pos < s.len(),
    ensures
        pos < spec_lex_step(s, pos).1 <= s.len(),
{
    let c = s[pos];
    if spec_is_space(c) {
    } else if c == '-' && pos + 1 < s.len() && s[pos + 1] == '-' {
        lemma_run_end(s, pos + 2, CharClass::NotChar('\n'));
    } else if spec_is_terminator_char(c) {
    } else if c == '\'' || c == '"' {
        lemma_run_end(s, pos + 1, CharClass::NotChar(c));
    } else if c == '@' {
        lemma_run_end(s, pos + 1, CharClass::Word);
    } else if spec_is_digit(c) {
        lemma_run_end_strict(s, pos, CharClass::Number);
    } else if spec_is_symbol_char(c) {
        lemma_run_end_strict(s, pos, CharClass::SymbolRun);
    } else if spec_is_word_char(c) {
        lemma_run_end_strict(s, pos, CharClass::Word);
        let e1 = spec_run_end(s, pos, CharClass::Word);
        lemma_run_end(s, e1, CharClass::Space);
        let b2 = spec_run_end(s, e1, CharClass::Space);
        lemma_run_end(s, b2, CharClass::Word);
        let e2 = spec_run_end(s, b2, CharClass::Word);
        lemma_run_end(s, e2, CharClass::Space);
        let b3 = spec_run_end(s, e2, CharClass::Space);
        lemma_run_end(s, b3, CharClass::Word);
    } else {
    }
}

/// The token sequence of the text from `pos` on.
pub open spec fn spec_lex_from(s: Seq<char>, pos: int) -> Seq<TokenV>
    decreases s.len() - pos,
{
    if 0 <= pos < s.len() {
        let step = spec_lex_step(s, pos);
        if pos < step.1 <= s.len() {
            match step.0 {
                Some(t) => seq![t] + spec_lex_from(s, step.1),
                None => spec_lex_from(s, step.1),
            }
        } else {
            Seq::empty()
        }
    } else {
        Seq::empty()
    }
}

/// The token sequence of a whole text: what [`lex`] returns.
pub open spec fn spec_lex(s: Seq<char>) -> Seq<TokenV> {
    spec_lex_from(s, 0)
}

/// Exec counterpart of [`spec_lex_word_step`].
fn lex_word_step(v: &Vec<char>, pos: usize) -> (r: (Option<Token>, usize))
    requires
        pos < v@.len(),
        spec_is_word_char(v@[pos as int]),
    ensures
        opt_token_view(r.0) == spec_lex_word_step(v@, pos as int).0,
        r.1 == spec_lex_word_step(v@, pos as int).1,
{
    proof {
        lemma_run_end(v@, pos as int, CharClass::Word);
    }
    let e1 = run_end(v, pos, CharClass::Word);
    let word1 = chars_range(v, pos, e1);
    let u1 = upper_vec(&word1);
    if let Some(f) = function_of_word(&u1) {
        if e1 < v.len() && v[e1] == '(' {
            return (Some(Token::Function(f)), e1);
        }
    }
    if expects_continuation(&u1) {
        let b2 = run_end(v, e1, CharClass::Space);
        let e2 = run_end(v, b2, CharClass::Word);
        let word2 = chars_range(v, b2, e2);
        let u2 = upper_vec(&word2);
        if (chars_eq_str(&u1, "GROUP") || chars_eq_str(&u1, "ORDER")) && chars_eq_str(&u2, "BY") {
            let k = if chars_eq_str(&u1, "GROUP") {
                Keyword::GroupBy
            } else {
                Keyword::OrderBy
            };
            (Some(Token::Keyword(k)), e2)
        } else if chars_eq_str(&u1, "INNER") && chars_eq_str(&u2, "JOIN") {
            (Some(Token::Keyword(Keyword::InnerJoin)), e2)
        } else if chars_eq_str(&u1, "RIGHT") && chars_eq_str(&u2, "JOIN") {
            (Some(Token::Keyword(Keyword::RightJoin)), e2)
        } else if chars_eq_str(&u1, "FULL") && chars_eq_str(&u2, "JOIN") {
            (Some(Token::Keyword(Keyword::FullJoin)), e2)
        } else if chars_eq_str(&u1, "LEFT") && chars_eq_str(&u2, "JOIN") {
            (Some(Token::Keyword(Keyword::LeftJoin)), e2)
        } else if chars_eq_str(&u1, "LEFT") && chars_eq_str(&u2, "OUTER") {
            let b3 = run_end(v, e2, CharClass::Space);
            let e3 = run_end(v, b3, CharClass::Word);
            let word3 = chars_range(v, b3, e3);
            let u3 = upper_vec(&word3);
            if chars_eq_str(&u3, "JOIN") {
                (Some(Token::Keyword(Keyword::LeftJoin)), e3)
            } else {
                (Some(Token::Identifier(string_of_range(v, pos, e1))), e1)
            }
        } else {
            (Some(Token::Identifier(string_of_range(v, pos, e1))), e1)
        }
    } else {
        match single_keyword(&u1) {
            Some(k) => (Some(Token::Keyword(k)), e1),
            None => (Some(Token::Identifier(string_of_range(v, pos, e1))), e1),
        }
    }
}

/// Exec counterpart of [`spec_lex_step`].
fn lex_step(v: &Vec<char>, pos: usize) -> (r: (Option<Token>, usize))
    requires
        pos < v@.len(),
    ensures
        opt_token_view(r.0) == spec_lex_step(v@, pos as int).0,
        r.1 == spec_lex_step(v@, pos as int).1,
        pos < r.1 <= v@.len(),
{
    proof {
        lemma_lex_step(v@, pos as int);
    }
    let n = v.len();
    let c = v[pos];
    if is_space(c) {
        (None, pos + 1)
    } else if c == '-' && pos + 1 < n && v[pos + 1] == '-' {
        let e = run_end(v, pos + 2, CharClass::NotChar('\n'));
        (Some(Token::Comment(string_of_range(v, pos + 2, e))), e)
    } else if is_terminator_char(c) {
        let sym = if c == ';' {
            Symbol::Semicolon
        } else {
            Symbol::Slash
        };
        (Some(Token::Symbol(sym)), pos + 1)
    } else if c == '\'' || c == '"' {
        let e = run_end(v, pos + 1, CharClass::NotChar(c));
        let next = if e < n {
            e + 1
        } else {
            e
        };
        (Some(Token::Identifier(string_of_range(v, pos + 1, e))), next)
    } else if c == '@' {
        let e = run_end(v, pos + 1, CharClass::Word);
        (Some(Token::Variable(string_of_range(v, pos + 1, e))), e)
    } else if is_digit(c) {
        let e = run_end(v, pos, CharClass::Number);
        (Some(Token::Number(string_of_range(v, pos, e))), e)
    } else if is_symbol_char(c) {
        let e = run_end(v, pos, CharClass::SymbolRun);
        let run = chars_range(v, pos, e);
        match parse_symbol_chars(&run) {
            Some(sym) => (Some(Token::Symbol(sym)), e),
            None => (None, e),
        }
    } else if is_word_char(c) {
        lex_word_step(v, pos)
    } else {
        (None, pos + 1)
    }
}

/// Lex a whole query text into its token sequence. Lexing never fails;
/// see the step function for how each fragment is classified.
pub fn lex(text: &str) -> (r: Vec<Token>)
    ensures
        r.deep_view() == spec_lex(text@),
{
    let v = str_chars(text);
    let mut tokens: Vec<Token> = Vec::new();
    let mut pos: usize = 0;
    while pos < v.len()
        invariant
            pos <= v@.len(),
            v@ == text@,
            spec_lex(text@) == tokens.deep_view() + spec_lex_from(v@, pos as int),
        decreases v@.len() - pos,
    {
        let ghost toks_old = tokens.deep_view();
        let ghost pos_old = pos as int;
        let (tok, next) = lex_step(&v, pos);
        match tok {
            Some(t) => {
                let ghost tv = t@;
                tokens.push(t);
                proof {
                    assert(tokens.deep_view() =~= toks_old + seq![tv]);
                    assert(spec_lex_from(v@, pos_old) == seq![tv] + spec_lex_from(
                        v@,
                        next as int,
                    ));
                    assert((toks_old + seq![tv]) + spec_lex_from(v@, next as int) =~= toks_old + (
                    seq![tv] + spec_lex_from(v@, next as int)));
                }
            },
            None => {},
        }
        pos = next;
    }
    proof {
        assert(spec_lex_from(v@, pos as int) =~= Seq::<TokenV>::empty());
        assert(tokens.deep_view() + Seq::<TokenV>::empty() =~= tokens.deep_view());
    }
    tokens
}

} // verus!
