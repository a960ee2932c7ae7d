//! Laws of the front end, stated and proved once and for all inputs:
//! determinism of parsing, and the round trip from a symbol or keyword
//! through its text back to the same single token.

use vstd::prelude::*;
use crate::chars::{
    spec_upper_seq, spec_run_end, lemma_run_end, lemma_run_end_exact, lemma_upper_space,
    lemma_upper_seq_idempotent, lemma_upper_seq_subrange, CharClass,
};
use crate::ast::{ExprV, ValueV};
use crate::error::ErrorV;
use crate::expression_parser::{
    spec_parse_expression, spec_parse_expression_rest, spec_parse_next_term, spec_parse_term_rest,
    spec_parse_factor,
};
use crate::keyword::{Keyword, spec_words, spec_words_from, spec_parse_keyword, spec_keyword_of_words};
use crate::lexer::{spec_lex, spec_lex_from, spec_lex_word_step, lemma_run_end_strict};
use crate::statement_parser::{spec_parse_select, spec_parse_insert};
use crate::structs::StatementV;
use crate::symbol::Symbol;
use crate::token::TokenV;

verus! {

/// Parsing a `SELECT` is a function of the statement text alone: any two
/// results obtained by lexing and parsing equal texts are structurally
/// equal, errors included. The executable `lex` and `parse_select` pin
/// their results to exactly these specification values, so two runs over
/// the same string always agree.
pub proof fn lemma_parse_select_deterministic(
    text: Seq<char>,
    r1: Result<StatementV, ErrorV>,
    r2: Result<StatementV, ErrorV>,
)
    requires
        r1 == spec_parse_select(spec_lex(text)),
        r2 == spec_parse_select(spec_lex(text)),
    ensures
        r1 == r2,
{
}

/// Parsing an `INSERT` is a function of the statement text alone, exactly
/// as for `SELECT`.
pub proof fn lemma_parse_insert_deterministic(
    text: Seq<char>,
    r1: Result<StatementV, ErrorV>,
    r2: Result<StatementV, ErrorV>,
)
    requires
        r1 == spec_parse_insert(spec_lex(text)),
        r2 == spec_parse_insert(spec_lex(text)),
    ensures
        r1 == r2,
{
}

/// The length and the characters of every reserved word and function
/// name, as concrete facts the round-trip proofs rest on.
proof fn lemma_word_constants()
    ensures
        "SELECT"@.len() == 6,
        "SELECT"@[0] == 'S',
        "SELECT"@[1] == 'E',
        "SELECT"@[2] == 'L',
        "SELECT"@[3] == 'E',
        "SELECT"@[4] == 'C',
        "SELECT"@[5] == 'T',
        "INSERT"@.len() == 6,
        "INSERT"@[0] == 'I',
        "INSERT"@[1] == 'N',
        "INSERT"@[2] == 'S',
        "INSERT"@[3] == 'E',
        "INSERT"@[4] == 'R',
        "INSERT"@[5] == 'T',
        "UPDATE"@.len() == 6,
        "UPDATE"@[0] == 'U',
        "UPDATE"@[1] == 'P',
        "UPDATE"@[2] == 'D',
        "UPDATE"@[3] == 'A',
        "UPDATE"@[4] == 'T',
        "UPDATE"@[5] == 'E',
        "DELETE"@.len() == 6,
        "DELETE"@[0] == 'D',
        "DELETE"@[1] == 'E',
        "DELETE"@[2] == 'L',
        "DELETE"@[3] == 'E',
        "DELETE"@[4] == 'T',
        "DELETE"@[5] == 'E',
        "FROM"@.len() == 4,
        "FROM"@[0] == 'F',
        "FROM"@[1] == 'R',
        "FROM"@[2] == 'O',
        "FROM"@[3] == 'M',
        "WHERE"@.len() == 5,
        "WHERE"@[0] == 'W',
        "WHERE"@[1] == 'H',
        "WHERE"@[2] == 'E',
        "WHERE"@[3] == 'R',
        "WHERE"@[4] == 'E',
        "JOIN"@.len() == 4,
        "JOIN"@[0] == 'J',
        "JOIN"@[1] == 'O',
        "JOIN"@[2] == 'I',
        "JOIN"@[3] == 'N',
        "INTO"@.len() == 4,
        "INTO"@[0] == 'I',
        "INTO"@[1] == 'N',
        "INTO"@[2] == 'T',
        "INTO"@[3] == 'O',
        "VALUES"@.len() == 6,
        "VALUES"@[0] == 'V',
        "VALUES"@[1] == 'A',
        "VALUES"@[2] == 'L',
        "VALUES"@[3] == 'U',
        "VALUES"@[4] == 'E',
        "VALUES"@[5] == 'S',
        "ON"@.len() == 2,
        "ON"@[0] == 'O',
        "ON"@[1] == 'N',
        "AS"@.len() == 2,
        "AS"@[0] == 'A',
        "AS"@[1] == 'S',
        "DISTINCT"@.len() == 8,
        "DISTINCT"@[0] == 'D',
        "DISTINCT"@[1] == 'I',
        "DISTINCT"@[2] == 'S',
        "DISTINCT"@[3] == 'T',
        "DISTINCT"@[4] == 'I',
        "DISTINCT"@[5] == 'N',
        "DISTINCT"@[6] == 'C',
        "DISTINCT"@[7] == 'T',
        "ALL"@.len() == 3,
        "ALL"@[0] == 'A',
        "ALL"@[1] == 'L',
        "ALL"@[2] == 'L',
        "EXISTS"@.len() == 6,
        "EXISTS"@[0] == 'E',
        "EXISTS"@[1] == 'X',
        "EXISTS"@[2] == 'I',
        "EXISTS"@[3] == 'S',
        "EXISTS"@[4] == 'T',
        "EXISTS"@[5] == 'S',
        "HAVING"@.len() == 6,
        "HAVING"@[0] == 'H',
        "HAVING"@[1] == 'A',
        "HAVING"@[2] == 'V',
        "HAVING"@[3] == 'I',
        "HAVING"@[4] == 'N',
        "HAVING"@[5] == 'G',
        "UNION"@.len() == 5,
        "UNION"@[0] == 'U',
        "UNION"@[1] == 'N',
        "UNION"@[2] == 'I',
        "UNION"@[3] == 'O',
        "UNION"@[4] == 'N',
        "NOT"@.len() == 3,
        "NOT"@[0] == 'N',
        "NOT"@[1] == 'O',
        "NOT"@[2] == 'T',
        "AND"@.len() == 3,
        "AND"@[0] == 'A',
        "AND"@[1] == 'N',
        "AND"@[2] == 'D',
        "OR"@.len() == 2,
        "OR"@[0] == 'O',
        "OR"@[1] == 'R',
        "ASC"@.len() == 3,
        "ASC"@[0] == 'A',
        "ASC"@[1] == 'S',
        "ASC"@[2] == 'C',
        "DESC"@.len() == 4,
        "DESC"@[0] == 'D',
        "DESC"@[1] == 'E',
        "DESC"@[2] == 'S',
        "DESC"@[3] == 'C',
        "GROUP"@.len() == 5,
        "GROUP"@[0] == 'G',
        "GROUP"@[1] == 'R',
        "GROUP"@[2] == 'O',
        "GROUP"@[3] == 'U',
        "GROUP"@[4] == 'P',
        "ORDER"@.len() == 5,
        "ORDER"@[0] == 'O',
        "ORDER"@[1] == 'R',
        "ORDER"@[2] == 'D',
        "ORDER"@[3] == 'E',
        "ORDER"@[4] == 'R',
        "INNER"@.len() == 5,
        "INNER"@[0] == 'I',
        "INNER"@[1] == 'N',
        "INNER"@[2] == 'N',
        "INNER"@[3] == 'E',
        "INNER"@[4] == 'R',
        "LEFT"@.len() == 4,
        "LEFT"@[0] == 'L',
        "LEFT"@[1] == 'E',
        "LEFT"@[2] == 'F',
        "LEFT"@[3] == 'T',
        "RIGHT"@.len() == 5,
        "RIGHT"@[0] == 'R',
        "RIGHT"@[1] == 'I',
        "RIGHT"@[2] == 'G',
        "RIGHT"@[3] == 'H',
        "RIGHT"@[4] == 'T',
        "FULL"@.len() == 4,
        "FULL"@[0] == 'F',
        "FULL"@[1] == 'U',
        "FULL"@[2] == 'L',
        "FULL"@[3] == 'L',
        "BY"@.len() == 2,
        "BY"@[0] == 'B',
        "BY"@[1] == 'Y',
        "SUM"@.len() == 3,
        "SUM"@[0] == 'S',
        "SUM"@[1] == 'U',
        "SUM"@[2] == 'M',
        "AVG"@.len() == 3,
        "AVG"@[0] == 'A',
        "AVG"@[1] == 'V',
        "AVG"@[2] == 'G',
        "COUNT"@.len() == 5,
        "COUNT"@[0] == 'C',
        "COUNT"@[1] == 'O',
        "COUNT"@[2] == 'U',
        "COUNT"@[3] == 'N',
        "COUNT"@[4] == 'T',
        "MAX"@.len() == 3,
        "MAX"@[0] == 'M',
        "MAX"@[1] == 'A',
        "MAX"@[2] == 'X',
        "MIN"@.len() == 3,
        "MIN"@[0] == 'M',
        "MIN"@[1] == 'I',
        "MIN"@[2] == 'N',
        "CONCAT"@.len() == 6,
        "CONCAT"@[0] == 'C',
        "CONCAT"@[1] == 'O',
        "CONCAT"@[2] == 'N',
        "CONCAT"@[3] == 'C',
        "CONCAT"@[4] == 'A',
        "CONCAT"@[5] == 'T',
        "GROUP BY"@.len() == 8,
        "GROUP BY"@[0] == 'G',
        "GROUP BY"@[1] == 'R',
        "GROUP BY"@[2] == 'O',
        "GROUP BY"@[3] == 'U',
        "GROUP BY"@[4] == 'P',
        "GROUP BY"@[5] == ' ',
        "GROUP BY"@[6] == 'B',
        "GROUP BY"@[7] == 'Y',
        "ORDER BY"@.len() == 8,
        "ORDER BY"@[0] == 'O',
        "ORDER BY"@[1] == 'R',
        "ORDER BY"@[2] == 'D',
        "ORDER BY"@[3] == 'E',
        "ORDER BY"@[4] == 'R',
        "ORDER BY"@[5] == ' ',
        "ORDER BY"@[6] == 'B',
        "ORDER BY"@[7] == 'Y',
        "INNER JOIN"@.len() == 10,
        "INNER JOIN"@[0] == 'I',
        "INNER JOIN"@[1] == 'N',
        "INNER JOIN"@[2] == 'N',
        "INNER JOIN"@[3] == 'E',
        "INNER JOIN"@[4] == 'R',
        "INNER JOIN"@[5] == ' ',
        "INNER JOIN"@[6] == 'J',
        "INNER JOIN"@[7] == 'O',
        "INNER JOIN"@[8] == 'I',
        "INNER JOIN"@[9] == 'N',
        "LEFT JOIN"@.len() == 9,
        "LEFT JOIN"@[0] == 'L',
        "LEFT JOIN"@[1] == 'E',
        "LEFT JOIN"@[2] == 'F',
        "LEFT JOIN"@[3] == 'T',
        "LEFT JOIN"@[4] == ' ',
        "LEFT JOIN"@[5] == 'J',
        "LEFT JOIN"@[6] == 'O',
        "LEFT JOIN"@[7] == 'I',
        "LEFT JOIN"@[8] == 'N',
        "RIGHT JOIN"@.len() == 10,
        "RIGHT JOIN"@[0] == 'R',
        "RIGHT JOIN"@[1] == 'I',
        "RIGHT JOIN"@[2] == 'G',
        "RIGHT JOIN"@[3] == 'H',
        "RIGHT JOIN"@[4] == 'T',
        "RIGHT JOIN"@[5] == ' ',
        "RIGHT JOIN"@[6] == 'J',
        "RIGHT JOIN"@[7] == 'O',
        "RIGHT JOIN"@[8] == 'I',
        "RIGHT JOIN"@[9] == 'N',
        "FULL JOIN"@.len() == 9,
        "FULL JOIN"@[0] == 'F',
        "FULL JOIN"@[1] == 'U',
        "FULL JOIN"@[2] == 'L',
        "FULL JOIN"@[3] == 'L',
        "FULL JOIN"@[4] == ' ',
        "FULL JOIN"@[5] == 'J',
        "FULL JOIN"@[6] == 'O',
        "FULL JOIN"@[7] == 'I',
        "FULL JOIN"@[8] == 'N',
{
    reveal_strlit("SELECT");
    reveal_strlit("INSERT");
    reveal_strlit("UPDATE");
    reveal_strlit("DELETE");
    reveal_strlit("FROM");
    reveal_strlit("WHERE");
    reveal_strlit("JOIN");
    reveal_strlit("INTO");
    reveal_strlit("VALUES");
    reveal_strlit("ON");
    reveal_strlit("AS");
    reveal_strlit("DISTINCT");
    reveal_strlit("ALL");
    reveal_strlit("EXISTS");
    reveal_strlit("HAVING");
    reveal_strlit("UNION");
    reveal_strlit("NOT");
    reveal_strlit("AND");
    reveal_strlit("OR");
    reveal_strlit("ASC");
    reveal_strlit("DESC");
    reveal_strlit("GROUP");
    reveal_strlit("ORDER");
    reveal_strlit("INNER");
    reveal_strlit("LEFT");
    reveal_strlit("RIGHT");
    reveal_strlit("FULL");
    reveal_strlit("BY");
    reveal_strlit("SUM");
    reveal_strlit("AVG");
    reveal_strlit("COUNT");
    reveal_strlit("MAX");
    reveal_strlit("MIN");
    reveal_strlit("CONCAT");
    reveal_strlit("GROUP BY");
    reveal_strlit("ORDER BY");
    reveal_strlit("INNER JOIN");
    reveal_strlit("LEFT JOIN");
    reveal_strlit("RIGHT JOIN");
    reveal_strlit("FULL JOIN");
}

/// Upper-casing a sequence of capital letters leaves it unchanged.
proof fn lemma_upper_caps(s: Seq<char>)
    requires
        forall|j: int| 0 <= j < s.len() ==> 'A' <= #[trigger] s[j] && s[j] <= 'Z',
    ensures
        spec_upper_seq(s) == s,
{
    assert(spec_upper_seq(s) =~= s);
}

/// Lexing one word of capital letters that names no function and opens no
/// compound keyword yields exactly the keyword the word names.
proof fn lemma_lex_caps_word(s: Seq<char>, k: Keyword)
    requires
        1 <= s.len(),
        forall|j: int| 0 <= j < s.len() ==> 'A' <= #[trigger] s[j] && s[j] <= 'Z',
        crate::function::spec_function_of_word(s) is None,
        !crate::keyword::spec_expects_continuation(s),
        crate::keyword::spec_single_keyword(s) == Some(k),
    ensures
        spec_lex(s) == seq![TokenV::Keyword(k)],
{
    lemma_run_end_exact(s, 0, s.len() as int, CharClass::Word);
    assert(s.subrange(0, s.len() as int) =~= s);
    lemma_upper_caps(s);
    assert(spec_lex_word_step(s, 0).0 == Some(TokenV::Keyword(k)));
    assert(spec_lex_word_step(s, 0).1 == s.len() as int);
    assert(spec_lex_from(s, s.len() as int) =~= Seq::<TokenV>::empty());
    assert(spec_lex(s) =~= seq![TokenV::Keyword(k)]);
}

/// Lexing two capital-letter words around one space, the first of which
/// opens a compound keyword that the second completes, yields exactly that
/// compound keyword token.
proof fn lemma_lex_caps_compound(s: Seq<char>, e1: int, k: Keyword)
    requires
        0 < e1,
        e1 + 1 < s.len(),
        forall|j: int| 0 <= j < e1 ==> 'A' <= #[trigger] s[j] && s[j] <= 'Z',
        s[e1] == ' ',
        forall|j: int| e1 < j < s.len() ==> 'A' <= #[trigger] s[j] && s[j] <= 'Z',
        crate::function::spec_function_of_word(s.subrange(0, e1)) is None,
        crate::keyword::spec_expects_continuation(s.subrange(0, e1)),
        ({
            let u1 = s.subrange(0, e1);
            let u2 = s.subrange(e1 + 1, s.len() as int);
            ||| (u1 == "GROUP"@ && u2 == "BY"@ && k == Keyword::GroupBy)
            ||| (u1 == "ORDER"@ && u2 == "BY"@ && k == Keyword::OrderBy)
            ||| (u1 == "INNER"@ && u2 == "JOIN"@ && k == Keyword::InnerJoin)
            ||| (u1 == "RIGHT"@ && u2 == "JOIN"@ && k == Keyword::RightJoin)
            ||| (u1 == "FULL"@ && u2 == "JOIN"@ && k == Keyword::FullJoin)
            ||| (u1 == "LEFT"@ && u2 == "JOIN"@ && k == Keyword::LeftJoin)
        }),
    ensures
        spec_lex(s) == seq![TokenV::Keyword(k)],
{
    lemma_word_constants();
    lemma_run_end_exact(s, 0, e1, CharClass::Word);
    lemma_run_end_exact(s, e1, e1 + 1, CharClass::Space);
    lemma_run_end_exact(s, e1 + 1, s.len() as int, CharClass::Word);
    lemma_upper_caps(s.subrange(0, e1));
    lemma_upper_caps(s.subrange(e1 + 1, s.len() as int));
    assert(spec_lex_word_step(s, 0).0 == Some(TokenV::Keyword(k)));
    assert(spec_lex_word_step(s, 0).1 == s.len() as int);
    assert(spec_lex_from(s, s.len() as int) =~= Seq::<TokenV>::empty());
    assert(spec_lex(s) =~= seq![TokenV::Keyword(k)]);
}

/// Round trip for every keyword: serializing it to its canonical text and
/// lexing that text yields exactly the one token it came from, so keyword
/// display and lexing are inverses.
pub proof fn lemma_keyword_round_trip(k: Keyword)
    ensures
        spec_lex(k.spec_text()) == seq![TokenV::Keyword(k)],
{
    lemma_word_constants();
    let s = k.spec_text();
    match k {
        Keyword::GroupBy => {
            assert(s.subrange(0, 5) =~= "GROUP"@);
            assert(s.subrange(6, s.len() as int) =~= "BY"@);
            lemma_lex_caps_compound(s, 5, k);
        },
        Keyword::OrderBy => {
            assert(s.subrange(0, 5) =~= "ORDER"@);
            assert(s.subrange(6, s.len() as int) =~= "BY"@);
            lemma_lex_caps_compound(s, 5, k);
        },
        Keyword::InnerJoin => {
            assert(s.subrange(0, 5) =~= "INNER"@);
            assert(s.subrange(6, s.len() as int) =~= "JOIN"@);
            lemma_lex_caps_compound(s, 5, k);
        },
        Keyword::LeftJoin => {
            assert(s.subrange(0, 4) =~= "LEFT"@);
            assert(s.subrange(5, s.len() as int) =~= "JOIN"@);
            lemma_lex_caps_compound(s, 4, k);
        },
        Keyword::RightJoin => {
            assert(s.subrange(0, 5) =~= "RIGHT"@);
            assert(s.subrange(6, s.len() as int) =~= "JOIN"@);
            lemma_lex_caps_compound(s, 5, k);
        },
        Keyword::FullJoin => {
            assert(s.subrange(0, 4) =~= "FULL"@);
            assert(s.subrange(5, s.len() as int) =~= "JOIN"@);
            lemma_lex_caps_compound(s, 4, k);
        },
        _ => {
            lemma_lex_caps_word(s, k);
        },
    }
}

/// Round trip for every symbol at the classifier level: the symbol's text
/// classifies back to exactly the symbol it came from.
pub proof fn lemma_symbol_parse_round_trip(sym: Symbol)
    ensures
        crate::symbol::spec_parse_symbol(sym.spec_text()) == Some(sym),
{
    match sym {
        Symbol::Comma => {},
        Symbol::Dot => {},
        Symbol::Asterisk => {},
        Symbol::Plus => {},
        Symbol::Minus => {},
        Symbol::Slash => {},
        Symbol::Percent => {},
        Symbol::Equal => {},
        Symbol::NotEqual => {},
        Symbol::LessThan => {},
        Symbol::GreaterThan => {},
        Symbol::LessThanOrEqual => {},
        Symbol::GreaterThanOrEqual => {},
        Symbol::LeftParen => {},
        Symbol::RightParen => {},
        Symbol::Semicolon => {},
    }
}

/// A text of capital letters splits into the one word it is.
proof fn lemma_words_caps_single(s: Seq<char>)
    requires
        1 <= s.len(),
        forall|j: int| 0 <= j < s.len() ==> 'A' <= #[trigger] s[j] && s[j] <= 'Z',
    ensures
        spec_words(s) == seq![s],
{
    lemma_run_end_exact(s, 0, s.len() as int, CharClass::NonSpace);
    assert(s.subrange(0, s.len() as int) =~= s);
    assert(spec_words_from(s, s.len() as int) =~= Seq::<Seq<char>>::empty());
    assert(spec_words(s) =~= seq![s]);
}

/// Two capital-letter words around one space split into exactly those two
/// words.
proof fn lemma_words_caps_pair(s: Seq<char>, e1: int)
    requires
        0 < e1,
        e1 + 1 < s.len(),
        forall|j: int| 0 <= j < e1 ==> 'A' <= #[trigger] s[j] && s[j] <= 'Z',
        s[e1] == ' ',
        forall|j: int| e1 < j < s.len() ==> 'A' <= #[trigger] s[j] && s[j] <= 'Z',
    ensures
        spec_words(s) == seq![s.subrange(0, e1), s.subrange(e1 + 1, s.len() as int)],
{
    lemma_run_end_exact(s, 0, e1, CharClass::NonSpace);
    lemma_run_end_exact(s, e1 + 1, s.len() as int, CharClass::NonSpace);
    assert(spec_words_from(s, s.len() as int) =~= Seq::<Seq<char>>::empty());
    assert(spec_words_from(s, e1 + 1) =~= seq![s.subrange(e1 + 1, s.len() as int)]);
    assert(spec_words_from(s, e1) == spec_words_from(s, e1 + 1));
    assert(spec_words(s) =~= seq![s.subrange(0, e1), s.subrange(e1 + 1, s.len() as int)]);
}

/// Round trip for every keyword at the classifier level: the keyword's
/// canonical text classifies back to exactly the keyword it came from,
/// compound keywords included.
pub proof fn lemma_keyword_parse_round_trip(k: Keyword)
    ensures
        spec_parse_keyword(k.spec_text()) == Some(k),
{
    lemma_word_constants();
    let s = k.spec_text();
    match k {
        Keyword::GroupBy => {
            assert(s.subrange(0, 5) =~= "GROUP"@);
            assert(s.subrange(6, s.len() as int) =~= "BY"@);
            lemma_words_caps_pair(s, 5);
            lemma_upper_caps("GROUP"@);
            lemma_upper_caps("BY"@);
        },
        Keyword::OrderBy => {
            assert(s.subrange(0, 5) =~= "ORDER"@);
            assert(s.subrange(6, s.len() as int) =~= "BY"@);
            lemma_words_caps_pair(s, 5);
            lemma_upper_caps("ORDER"@);
            lemma_upper_caps("BY"@);
        },
        Keyword::InnerJoin => {
            assert(s.subrange(0, 5) =~= "INNER"@);
            assert(s.subrange(6, s.len() as int) =~= "JOIN"@);
            lemma_words_caps_pair(s, 5);
            lemma_upper_caps("INNER"@);
            lemma_upper_caps("JOIN"@);
        },
        Keyword::LeftJoin => {
            assert(s.subrange(0, 4) =~= "LEFT"@);
            assert(s.subrange(5, s.len() as int) =~= "JOIN"@);
            lemma_words_caps_pair(s, 4);
            lemma_upper_caps("LEFT"@);
            lemma_upper_caps("JOIN"@);
        },
        Keyword::RightJoin => {
            assert(s.subrange(0, 5) =~= "RIGHT"@);
            assert(s.subrange(6, s.len() as int) =~= "JOIN"@);
            lemma_words_caps_pair(s, 5);
            lemma_upper_caps("RIGHT"@);
            lemma_upper_caps("JOIN"@);
        },
        Keyword::FullJoin => {
            assert(s.subrange(0, 4) =~= "FULL"@);
            assert(s.subrange(5, s.len() as int) =~= "JOIN"@);
            lemma_words_caps_pair(s, 4);
            lemma_upper_caps("FULL"@);
            lemma_upper_caps("JOIN"@);
        },
        _ => {
            lemma_words_caps_single(s);
            lemma_upper_caps(s);
        },
    }
}

/// Non-space runs are unchanged by upper-casing.
proof fn lemma_run_end_upper(s: Seq<char>, pos: int)
    requires
        0 <= pos <= s.len(),
    ensures
        spec_run_end(spec_upper_seq(s), pos, CharClass::NonSpace) == spec_run_end(
            s,
            pos,
            CharClass::NonSpace,
        ),
    decreases s.len() - pos,
{
    if pos < s.len() {
        lemma_upper_space(s[pos]);
        lemma_run_end_upper(s, pos + 1);
    }
}

/// Word splitting commutes with upper-casing: the words of the folded text
/// are the folded words.
proof fn lemma_words_from_upper(s: Seq<char>, pos: int)
    requires
        0 <= pos,
    ensures
        spec_words_from(spec_upper_seq(s), pos) == spec_words_from(s, pos).map_values(
            |w: Seq<char>| spec_upper_seq(w),
        ),
    decreases s.len() - pos,
{
    let u = spec_upper_seq(s);
    if pos >= s.len() {
        assert(spec_words_from(u, pos) =~= spec_words_from(s, pos).map_values(
            |w: Seq<char>| spec_upper_seq(w),
        ));
    } else {
        lemma_upper_space(s[pos]);
        if crate::chars::spec_is_space(s[pos]) {
            lemma_words_from_upper(s, pos + 1);
        } else {
            lemma_run_end_upper(s, pos);
            let e = spec_run_end(s, pos, CharClass::NonSpace);
            lemma_run_end(s, pos, CharClass::NonSpace);
            lemma_run_end_strict(s, pos, CharClass::NonSpace);
            lemma_upper_seq_subrange(s, pos, e);
            lemma_words_from_upper(s, e);
            assert(spec_words_from(u, pos) =~= spec_words_from(s, pos).map_values(
                |w: Seq<char>| spec_upper_seq(w),
            ));
        }
    }
}

/// The keyword a word list names depends only on the words' upper-case
/// folds.
proof fn lemma_keyword_of_words_upper(ws: Seq<Seq<char>>)
    ensures
        spec_keyword_of_words(ws) == spec_keyword_of_words(
            ws.map_values(|w: Seq<char>| spec_upper_seq(w)),
        ),
{
    if ws.len() > 0 {
        lemma_upper_seq_idempotent(ws[0]);
        if ws.len() >= 2 {
            lemma_upper_seq_idempotent(ws[1]);
        }
        if ws.len() >= 3 {
            lemma_upper_seq_idempotent(ws[2]);
        }
    }
}

/// Keyword matching is case-insensitive: any spelling whose upper-case
/// fold is a keyword's canonical text classifies to that keyword, so every
/// case variant of the serialized text re-parses to the same keyword.
pub proof fn lemma_keyword_parse_case_insensitive(s: Seq<char>, k: Keyword)
    requires
        spec_upper_seq(s) == k.spec_text(),
    ensures
        spec_parse_keyword(s) == Some(k),
{
    lemma_words_from_upper(s, 0);
    lemma_keyword_of_words_upper(spec_words(s));
    lemma_keyword_parse_round_trip(k);
    assert(spec_words(s).map_values(|w: Seq<char>| spec_upper_seq(w)) == spec_words(
        k.spec_text(),
    ));
}

/// A leaf token: an identifier, a number, or a bind variable.
pub open spec fn is_leaf(t: TokenV) -> bool {
    t is Identifier || t is Number || t is Variable
}

/// The expression a leaf token parses to.
pub open spec fn leaf_expr(t: TokenV) -> ExprV {
    match t {
        TokenV::Identifier(s) => ExprV::Value(ValueV::Identifier(s)),
        TokenV::Number(s) => ExprV::Value(ValueV::Number(s)),
        TokenV::Variable(s) => ExprV::Value(ValueV::Variable(s)),
        _ => ExprV::Value(ValueV::Identifier(Seq::empty())),
    }
}

/// An additive operator token: `+` or `-`.
pub open spec fn is_add_op(op: Symbol) -> bool {
    op == Symbol::Plus || op == Symbol::Minus
}

/// A multiplicative operator token: `*` or `/`.
pub open spec fn is_mul_op(op: Symbol) -> bool {
    op == Symbol::Asterisk || op == Symbol::Slash
}

/// A leaf parses to its expression and consumes one token.
proof fn lemma_parse_leaf(toks: Seq<TokenV>, pos: int)
    requires
        0 <= pos < toks.len(),
        is_leaf(toks[pos]),
    ensures
        spec_parse_factor(toks, pos) == Ok::<(ExprV, int), ErrorV>((leaf_expr(toks[pos]), pos + 1)),
{
}

/// Multiplication on the right binds tighter: for all leaves and operator
/// choices, `l1 add l2 mul l3` parses as `l1 add (l2 mul l3)`, never as
/// `(l1 add l2) mul l3`.
pub proof fn lemma_precedence_mul_right(l1: TokenV, l2: TokenV, l3: TokenV, add: Symbol, mul: Symbol)
    requires
        is_leaf(l1),
        is_leaf(l2),
        is_leaf(l3),
        is_add_op(add),
        is_mul_op(mul),
    ensures
        ({
            let toks = seq![l1, TokenV::Symbol(add), l2, TokenV::Symbol(mul), l3];
            let inner = ExprV::BinaryOp(mul, Box::new(leaf_expr(l2)), Box::new(leaf_expr(l3)));
            spec_parse_expression(toks, 0) == Ok::<(ExprV, int), ErrorV>(
                (ExprV::BinaryOp(add, Box::new(leaf_expr(l1)), Box::new(inner)), 5),
            )
        }),
{
    let toks = seq![l1, TokenV::Symbol(add), l2, TokenV::Symbol(mul), l3];
    let e1 = leaf_expr(l1);
    let e2 = leaf_expr(l2);
    let e3 = leaf_expr(l3);
    let inner = ExprV::BinaryOp(mul, Box::new(e2), Box::new(e3));
    lemma_parse_leaf(toks, 0);
    lemma_parse_leaf(toks, 2);
    lemma_parse_leaf(toks, 4);
    assert(spec_parse_term_rest(toks, 1, e1) == Ok::<(ExprV, int), ErrorV>((e1, 1)));
    assert(spec_parse_next_term(toks, 0) == Ok::<(ExprV, int), ErrorV>((e1, 1)));
    assert(spec_parse_term_rest(toks, 5, inner) == Ok::<(ExprV, int), ErrorV>((inner, 5)));
    assert(spec_parse_term_rest(toks, 3, e2) == Ok::<(ExprV, int), ErrorV>((inner, 5)));
    assert(spec_parse_next_term(toks, 2) == Ok::<(ExprV, int), ErrorV>((inner, 5)));
    let total = ExprV::BinaryOp(add, Box::new(e1), Box::new(inner));
    assert(spec_parse_expression_rest(toks, 5, total) == Ok::<(ExprV, int), ErrorV>((total, 5)));
    assert(spec_parse_expression_rest(toks, 1, e1) == Ok::<(ExprV, int), ErrorV>((total, 5)));
}

/// Multiplication on the left binds tighter: `l1 mul l2 add l3` parses as
/// `(l1 mul l2) add l3`.
pub proof fn lemma_precedence_mul_left(l1: TokenV, l2: TokenV, l3: TokenV, mul: Symbol, add: Symbol)
    requires
        is_leaf(l1),
        is_leaf(l2),
        is_leaf(l3),
        is_add_op(add),
        is_mul_op(mul),
    ensures
        ({
            let toks = seq![l1, TokenV::Symbol(mul), l2, TokenV::Symbol(add), l3];
            let inner = ExprV::BinaryOp(mul, Box::new(leaf_expr(l1)), Box::new(leaf_expr(l2)));
            spec_parse_expression(toks, 0) == Ok::<(ExprV, int), ErrorV>(
                (ExprV::BinaryOp(add, Box::new(inner), Box::new(leaf_expr(l3))), 5),
            )
        }),
{
    let toks = seq![l1, TokenV::Symbol(mul), l2, TokenV::Symbol(add), l3];
    let e1 = leaf_expr(l1);
    let e2 = leaf_expr(l2);
    let e3 = leaf_expr(l3);
    let inner = ExprV::BinaryOp(mul, Box::new(e1), Box::new(e2));
    lemma_parse_leaf(toks, 0);
    lemma_parse_leaf(toks, 2);
    lemma_parse_leaf(toks, 4);
    assert(spec_parse_term_rest(toks, 3, inner) == Ok::<(ExprV, int), ErrorV>((inner, 3)));
    assert(spec_parse_term_rest(toks, 1, e1) == Ok::<(ExprV, int), ErrorV>((inner, 3)));
    assert(spec_parse_next_term(toks, 0) == Ok::<(ExprV, int), ErrorV>((inner, 3)));
    assert(spec_parse_term_rest(toks, 5, e3) == Ok::<(ExprV, int), ErrorV>((e3, 5)));
    assert(spec_parse_next_term(toks, 4) == Ok::<(ExprV, int), ErrorV>((e3, 5)));
    let total = ExprV::BinaryOp(add, Box::new(inner), Box::new(e3));
    assert(spec_parse_expression_rest(toks, 5, total) == Ok::<(ExprV, int), ErrorV>((total, 5)));
    assert(spec_parse_expression_rest(toks, 3, inner) == Ok::<(ExprV, int), ErrorV>((total, 5)));
}

/// Operators of one level are left-associative: `l1 op1 l2 op2 l3` with
/// two additive operators parses as `(l1 op1 l2) op2 l3`, and likewise
/// with two multiplicative operators.
pub proof fn lemma_left_associative(l1: TokenV, l2: TokenV, l3: TokenV, op1: Symbol, op2: Symbol)
    requires
        is_leaf(l1),
        is_leaf(l2),
        is_leaf(l3),
        (is_add_op(op1) && is_add_op(op2)) || (is_mul_op(op1) && is_mul_op(op2)),
    ensures
        ({
            let toks = seq![l1, TokenV::Symbol(op1), l2, TokenV::Symbol(op2), l3];
            let inner = ExprV::BinaryOp(op1, Box::new(leaf_expr(l1)), Box::new(leaf_expr(l2)));
            spec_parse_expression(toks, 0) == Ok::<(ExprV, int), ErrorV>(
                (ExprV::BinaryOp(op2, Box::new(inner), Box::new(leaf_expr(l3))), 5),
            )
        }),
{
    let toks = seq![l1, TokenV::Symbol(op1), l2, TokenV::Symbol(op2), l3];
    let e1 = leaf_expr(l1);
    let e2 = leaf_expr(l2);
    let e3 = leaf_expr(l3);
    let inner = ExprV::BinaryOp(op1, Box::new(e1), Box::new(e2));
    let total = ExprV::BinaryOp(op2, Box::new(inner), Box::new(e3));
    lemma_parse_leaf(toks, 0);
    lemma_parse_leaf(toks, 2);
    lemma_parse_leaf(toks, 4);
    if is_add_op(op1) {
        assert(spec_parse_term_rest(toks, 1, e1) == Ok::<(ExprV, int), ErrorV>((e1, 1)));
        assert(spec_parse_next_term(toks, 0) == Ok::<(ExprV, int), ErrorV>((e1, 1)));
        assert(spec_parse_term_rest(toks, 3, e2) == Ok::<(ExprV, int), ErrorV>((e2, 3)));
        assert(spec_parse_next_term(toks, 2) == Ok::<(ExprV, int), ErrorV>((e2, 3)));
        assert(spec_parse_term_rest(toks, 5, e3) == Ok::<(ExprV, int), ErrorV>((e3, 5)));
        assert(spec_parse_next_term(toks, 4) == Ok::<(ExprV, int), ErrorV>((e3, 5)));
        assert(spec_parse_expression_rest(toks, 5, total) == Ok::<(ExprV, int), ErrorV>(
            (total, 5),
        ));
        assert(spec_parse_expression_rest(toks, 3, inner) == Ok::<(ExprV, int), ErrorV>(
            (total, 5),
        ));
        assert(spec_parse_expression_rest(toks, 1, e1) == Ok::<(ExprV, int), ErrorV>((total, 5)));
    } else {
        assert(spec_parse_term_rest(toks, 5, total) == Ok::<(ExprV, int), ErrorV>((total, 5)));
        assert(spec_parse_term_rest(toks, 3, inner) == Ok::<(ExprV, int), ErrorV>((total, 5)));
        assert(spec_parse_term_rest(toks, 1, e1) == Ok::<(ExprV, int), ErrorV>((total, 5)));
        assert(spec_parse_next_term(toks, 0) == Ok::<(ExprV, int), ErrorV>((total, 5)));
        assert(spec_parse_expression_rest(toks, 5, total) == Ok::<(ExprV, int), ErrorV>(
            (total, 5),
        ));
    }
}

/// Parentheses override precedence: `( l1 add l2 ) mul l3` parses as
/// `(l1 add l2) mul l3`, the parenthesized sum becoming the left factor.
pub proof fn lemma_paren_overrides(l1: TokenV, l2: TokenV, l3: TokenV, add: Symbol, mul: Symbol)
    requires
        is_leaf(l1),
        is_leaf(l2),
        is_leaf(l3),
        is_add_op(add),
        is_mul_op(mul),
    ensures
        ({
            let toks = seq![
                TokenV::Symbol(Symbol::LeftParen),
                l1,
                TokenV::Symbol(add),
                l2,
                TokenV::Symbol(Symbol::RightParen),
                TokenV::Symbol(mul),
                l3,
            ];
            let inner = ExprV::BinaryOp(add, Box::new(leaf_expr(l1)), Box::new(leaf_expr(l2)));
            spec_parse_expression(toks, 0) == Ok::<(ExprV, int), ErrorV>(
                (ExprV::BinaryOp(mul, Box::new(inner), Box::new(leaf_expr(l3))), 7),
            )
        }),
{
    let toks = seq![
        TokenV::Symbol(Symbol::LeftParen),
        l1,
        TokenV::Symbol(add),
        l2,
        TokenV::Symbol(Symbol::RightParen),
        TokenV::Symbol(mul),
        l3,
    ];
    let e1 = leaf_expr(l1);
    let e2 = leaf_expr(l2);
    let e3 = leaf_expr(l3);
    let inner = ExprV::BinaryOp(add, Box::new(e1), Box::new(e2));
    let total = ExprV::BinaryOp(mul, Box::new(inner), Box::new(e3));
    lemma_parse_leaf(toks, 1);
    lemma_parse_leaf(toks, 3);
    lemma_parse_leaf(toks, 6);
    assert(spec_parse_term_rest(toks, 2, e1) == Ok::<(ExprV, int), ErrorV>((e1, 2)));
    assert(spec_parse_next_term(toks, 1) == Ok::<(ExprV, int), ErrorV>((e1, 2)));
    assert(spec_parse_term_rest(toks, 4, e2) == Ok::<(ExprV, int), ErrorV>((e2, 4)));
    assert(spec_parse_next_term(toks, 3) == Ok::<(ExprV, int), ErrorV>((e2, 4)));
    assert(spec_parse_expression_rest(toks, 4, inner) == Ok::<(ExprV, int), ErrorV>((inner, 4)));
    assert(spec_parse_expression_rest(toks, 2, e1) == Ok::<(ExprV, int), ErrorV>((inner, 4)));
    assert(spec_parse_expression(toks, 1) == Ok::<(ExprV, int), ErrorV>((inner, 4)));
    assert(spec_parse_factor(toks, 0) == Ok::<(ExprV, int), ErrorV>((inner, 5)));
    lemma_parse_leaf(toks, 6);
    assert(spec_parse_term_rest(toks, 7, total) == Ok::<(ExprV, int), ErrorV>((total, 7)));
    assert(spec_parse_term_rest(toks, 5, inner) == Ok::<(ExprV, int), ErrorV>((total, 7)));
    assert(spec_parse_next_term(toks, 0) == Ok::<(ExprV, int), ErrorV>((total, 7)));
    assert(spec_parse_expression_rest(toks, 7, total) == Ok::<(ExprV, int), ErrorV>((total, 7)));
}

/// A unary sign binds tightest: `sign l1 mul l2` parses as
/// `(sign l1) mul l2`, the sign staying inside the left factor.
pub proof fn lemma_unary_tightest(l1: TokenV, l2: TokenV, sign: Symbol, mul: Symbol)
    requires
        is_leaf(l1),
        is_leaf(l2),
        is_add_op(sign),
        is_mul_op(mul),
    ensures
        ({
            let toks = seq![TokenV::Symbol(sign), l1, TokenV::Symbol(mul), l2];
            let signed = ExprV::UnaryOp(sign, Box::new(leaf_expr(l1)));
            spec_parse_expression(toks, 0) == Ok::<(ExprV, int), ErrorV>(
                (ExprV::BinaryOp(mul, Box::new(signed), Box::new(leaf_expr(l2))), 4),
            )
        }),
{
    let toks = seq![TokenV::Symbol(sign), l1, TokenV::Symbol(mul), l2];
    let e1 = leaf_expr(l1);
    let e2 = leaf_expr(l2);
    let signed = ExprV::UnaryOp(sign, Box::new(e1));
    let total = ExprV::BinaryOp(mul, Box::new(signed), Box::new(e2));
    lemma_parse_leaf(toks, 1);
    lemma_parse_leaf(toks, 3);
    assert(spec_parse_factor(toks, 0) == Ok::<(ExprV, int), ErrorV>((signed, 2)));
    assert(spec_parse_term_rest(toks, 4, total) == Ok::<(ExprV, int), ErrorV>((total, 4)));
    assert(spec_parse_term_rest(toks, 2, signed) == Ok::<(ExprV, int), ErrorV>((total, 4)));
    assert(spec_parse_next_term(toks, 0) == Ok::<(ExprV, int), ErrorV>((total, 4)));
    assert(spec_parse_expression_rest(toks, 4, total) == Ok::<(ExprV, int), ErrorV>((total, 4)));
}

/// Lexing a single symbol character that is no terminator yields exactly
/// that symbol token.
proof fn lemma_lex_single_symbol(s: Seq<char>, sym: Symbol)
    requires
        s.len() == 1,
        crate::chars::spec_is_symbol_char(s[0]),
        !crate::chars::spec_is_terminator_char(s[0]),
        crate::symbol::spec_char_symbol(s[0]) == Some(sym),
    ensures
        spec_lex(s) == seq![TokenV::Symbol(sym)],
{
    lemma_run_end_exact(s, 0, 1, CharClass::SymbolRun);
    assert(s.subrange(0, 1) =~= s);
    assert(spec_lex_from(s, 1) =~= Seq::<TokenV>::empty());
    assert(spec_lex(s) =~= seq![TokenV::Symbol(sym)]);
}

/// Lexing a two-character comparator yields exactly that symbol token.
proof fn lemma_lex_double_symbol(s: Seq<char>, sym: Symbol)
    requires
        s.len() == 2,
        s[0] == '!' || s[0] == '<' || s[0] == '>',
        s[1] == '=',
        crate::symbol::spec_parse_symbol(s) == Some(sym),
    ensures
        spec_lex(s) == seq![TokenV::Symbol(sym)],
{
    lemma_run_end_exact(s, 0, 2, CharClass::SymbolRun);
    assert(s.subrange(0, 2) =~= s);
    assert(spec_lex_from(s, 2) =~= Seq::<TokenV>::empty());
    assert(spec_lex(s) =~= seq![TokenV::Symbol(sym)]);
}

/// Round trip for every symbol: serializing it to text and lexing that
/// text yields exactly the one token it came from, so symbol display and
/// lexing are inverses.
pub proof fn lemma_symbol_round_trip(sym: Symbol)
    ensures
        spec_lex(sym.spec_text()) == seq![TokenV::Symbol(sym)],
{
    let s = sym.spec_text();
    match sym {
        Symbol::Semicolon => {
            assert(spec_lex_from(s, 1) =~= Seq::<TokenV>::empty());
            assert(spec_lex(s) =~= seq![TokenV::Symbol(sym)]);
        },
        Symbol::Slash => {
            assert(spec_lex_from(s, 1) =~= Seq::<TokenV>::empty());
            assert(spec_lex(s) =~= seq![TokenV::Symbol(sym)]);
        },
        Symbol::NotEqual => lemma_lex_double_symbol(s, sym),
        Symbol::LessThanOrEqual => lemma_lex_double_symbol(s, sym),
        Symbol::GreaterThanOrEqual => lemma_lex_double_symbol(s, sym),
        _ => lemma_lex_single_symbol(s, sym),
    }
}

} // verus!
