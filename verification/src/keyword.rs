//! Reserved words of the query language, including compound keywords that
//! span several source words, such as `GROUP BY` and `LEFT OUTER JOIN`.

use vstd::prelude::*;
use crate::chars::{
    spec_is_space, is_space, spec_upper_seq, upper_vec, spec_run_end, lemma_run_end, run_end,
    chars_range, chars_eq_str, str_chars, CharClass, lemma_deep_view_chars,
};

verus! {

broadcast use lemma_deep_view_chars;

/// A reserved word. Compound variants stand for several source words that
/// the lexer recognizes as one lexical unit.
#[derive(Debug, PartialEq, Eq, Structural, Clone, Copy)]
pub enum Keyword {
    Select,
    Insert,
    Update,
    Delete,
    From,
    Where,
    GroupBy,
    OrderBy,
    Join,
    Into,
    InnerJoin,
    LeftJoin,
    RightJoin,
    FullJoin,
    Values,
    On,
    As,
    Distinct,
    All,
    Exists,
    Having,
    Union,
    Not,
    And,
    Or,
    Asc,
    Desc,
}

impl Keyword {
    /// The canonical source text of the keyword, in upper case.
    pub open spec fn spec_text(&self) -> Seq<char> {
        match self {
            Keyword::Select => "SELECT"@,
            Keyword::Insert => "INSERT"@,
            Keyword::Update => "UPDATE"@,
            Keyword::Delete => "DELETE"@,
            Keyword::From => "FROM"@,
            Keyword::Where => "WHERE"@,
            Keyword::GroupBy => "GROUP BY"@,
            Keyword::OrderBy => "ORDER BY"@,
            Keyword::Join => "JOIN"@,
            Keyword::Into => "INTO"@,
            Keyword::InnerJoin => "INNER JOIN"@,
            Keyword::LeftJoin => "LEFT JOIN"@,
            Keyword::RightJoin => "RIGHT JOIN"@,
            Keyword::FullJoin => "FULL JOIN"@,
            Keyword::Values => "VALUES"@,
            Keyword::On => "ON"@,
            Keyword::As => "AS"@,
            Keyword::Distinct => "DISTINCT"@,
            Keyword::All => "ALL"@,
            Keyword::Exists => "EXISTS"@,
            Keyword::Having => "HAVING"@,
            Keyword::Union => "UNION"@,
            Keyword::Not => "NOT"@,
            Keyword::And => "AND"@,
            Keyword::Or => "OR"@,
            Keyword::Asc => "ASC"@,
            Keyword::Desc => "DESC"@,
        }
    }

    /// Serialize the keyword back to its canonical source text.
    pub fn to_text(&self) -> (r: String)
        ensures
            r@ == self.spec_text(),
    {
        let text = match self {
            Keyword::Select => "SELECT",
            Keyword::Insert => "INSERT",
            Keyword::Update => "UPDATE",
            Keyword::Delete => "DELETE",
            Keyword::From => "FROM",
            Keyword::Where => "WHERE",
            Keyword::GroupBy => "GROUP BY",
            Keyword::OrderBy => "ORDER BY",
            Keyword::Join => "JOIN",
            Keyword::Into => "INTO",
            Keyword::InnerJoin => "INNER JOIN",
            Keyword::LeftJoin => "LEFT JOIN",
            Keyword::RightJoin => "RIGHT JOIN",
            Keyword::FullJoin => "FULL JOIN",
            Keyword::Values => "VALUES",
            Keyword::On => "ON",
            Keyword::As => "AS",
            Keyword::Distinct => "DISTINCT",
            Keyword::All => "ALL",
            Keyword::Exists => "EXISTS",
            Keyword::Having => "HAVING",
            Keyword::Union => "UNION",
            Keyword::Not => "NOT",
            Keyword::And => "AND",
            Keyword::Or => "OR",
            Keyword::Asc => "ASC",
            Keyword::Desc => "DESC",
        };
        text.to_owned()
    }

    /// Whether the keyword opens a clause of a `SELECT` statement: these
    /// end the comma-separated lists that precede them.
    pub open spec fn spec_is_clause(&self) -> bool {
        match self {
            Keyword::From | Keyword::Where | Keyword::GroupBy | Keyword::Having
            | Keyword::OrderBy => true,
            _ => false,
        }
    }

    #[verifier::when_used_as_spec(spec_is_clause)]
    pub fn is_clause(&self) -> (r: bool)
        ensures
            r == self.spec_is_clause(),
    {
        match self {
            Keyword::From | Keyword::Where | Keyword::GroupBy | Keyword::Having
            | Keyword::OrderBy => true,
            _ => false,
        }
    }
}

/// The keyword named by a single upper-cased word. The compound prefixes
/// `GROUP`, `ORDER`, `INNER`, `LEFT`, `RIGHT` and `FULL` are no keywords on
/// their own and map to nothing here.
pub open spec fn spec_single_keyword(w: Seq<char>) -> Option<Keyword> {
    if w == "SELECT"@ {
        Some(Keyword::Select)
    } else if w == "INSERT"@ {
        Some(Keyword::Insert)
    } else if w == "UPDATE"@ {
        Some(Keyword::Update)
    } else if w == "DELETE"@ {
        Some(Keyword::Delete)
    } else if w == "FROM"@ {
        Some(Keyword::From)
    } else if w == "WHERE"@ {
        Some(Keyword::Where)
    } else if w == "JOIN"@ {
        Some(Keyword::Join)
    } else if w == "INTO"@ {
        Some(Keyword::Into)
    } else if w == "VALUES"@ {
        Some(Keyword::Values)
    } else if w == "ON"@ {
        Some(Keyword::On)
    } else if w == "AS"@ {
        Some(Keyword::As)
    } else if w == "DISTINCT"@ {
        Some(Keyword::Distinct)
    } else if w == "ALL"@ {
        Some(Keyword::All)
    } else if w == "EXISTS"@ {
        Some(Keyword::Exists)
    } else if w == "HAVING"@ {
        Some(Keyword::Having)
    } else if w == "UNION"@ {
        Some(Keyword::Union)
    } else if w == "NOT"@ {
        Some(Keyword::Not)
    } else if w == "AND"@ {
        Some(Keyword::And)
    } else if w == "OR"@ {
        Some(Keyword::Or)
    } else if w == "ASC"@ {
        Some(Keyword::Asc)
    } else if w == "DESC"@ {
        Some(Keyword::Desc)
    } else {
        None
    }
}

/// Exec counterpart of [`spec_single_keyword`]; takes the word already
/// upper-cased.
pub fn single_keyword(w: &Vec<char>) -> (r: Option<Keyword>)
    ensures
        r == spec_single_keyword(w@),
{
    if chars_eq_str(w, "SELECT") {
        Some(Keyword::Select)
    } else if chars_eq_str(w, "INSERT") {
        Some(Keyword::Insert)
    } else if chars_eq_str(w, "UPDATE") {
        Some(Keyword::Update)
    } else if chars_eq_str(w, "DELETE") {
        Some(Keyword::Delete)
    } else if chars_eq_str(w, "FROM") {
        Some(Keyword::From)
    } else if chars_eq_str(w, "WHERE") {
        Some(Keyword::Where)
    } else if chars_eq_str(w, "JOIN") {
        Some(Keyword::Join)
    } else if chars_eq_str(w, "INTO") {
        Some(Keyword::Into)
    } else if chars_eq_str(w, "VALUES") {
        Some(Keyword::Values)
    } else if chars_eq_str(w, "ON") {
        Some(Keyword::On)
    } else if chars_eq_str(w, "AS") {
        Some(Keyword::As)
    } else if chars_eq_str(w, "DISTINCT") {
        Some(Keyword::Distinct)
    } else if chars_eq_str(w, "ALL") {
        Some(Keyword::All)
    } else if chars_eq_str(w, "EXISTS") {
        Some(Keyword::Exists)
    } else if chars_eq_str(w, "HAVING") {
        Some(Keyword::Having)
    } else if chars_eq_str(w, "UNION") {
        Some(Keyword::Union)
    } else if chars_eq_str(w, "NOT") {
        Some(Keyword::Not)
    } else if chars_eq_str(w, "AND") {
        Some(Keyword::And)
    } else if chars_eq_str(w, "OR") {
        Some(Keyword::Or)
    } else if chars_eq_str(w, "ASC") {
        Some(Keyword::Asc)
    } else if chars_eq_str(w, "DESC") {
        Some(Keyword::Desc)
    } else {
        None
    }
}

/// Whether the upper-cased word opens a compound keyword and expects a
/// continuation word after it.
pub open spec fn spec_expects_continuation(w: Seq<char>) -> bool {
    w == "GROUP"@ || w == "ORDER"@ || w == "INNER"@ || w == "LEFT"@ || w == "RIGHT"@
        || w == "FULL"@
}

/// Exec counterpart of [`spec_expects_continuation`]; takes the word
/// already upper-cased.
pub fn expects_continuation(w: &Vec<char>) -> (r: bool)
    ensures
        r == spec_expects_continuation(w@),
{
    chars_eq_str(w, "GROUP") || chars_eq_str(w, "ORDER") || chars_eq_str(w, "INNER")
        || chars_eq_str(w, "LEFT") || chars_eq_str(w, "RIGHT") || chars_eq_str(w, "FULL")
}

/// The keyword named by a whitespace-separated word list, matched
/// case-insensitively. A compound prefix must be followed by its expected
/// continuation; a single-word keyword ignores any trailing words, as the
/// continuation words of a recognized compound are ignored beyond it.
pub open spec fn spec_keyword_of_words(ws: Seq<Seq<char>>) -> Option<Keyword> {
    if ws.len() == 0 {
        None
    } else {
        let w0 = spec_upper_seq(ws[0]);
        if w0 == "GROUP"@ {
            if ws.len() >= 2 && spec_upper_seq(ws[1]) == "BY"@ {
                Some(Keyword::GroupBy)
            } else {
                None
            }
        } else if w0 == "ORDER"@ {
            if ws.len() >= 2 && spec_upper_seq(ws[1]) == "BY"@ {
                Some(Keyword::OrderBy)
            } else {
                None
            }
        } else if w0 == "INNER"@ {
            if ws.len() >= 2 && spec_upper_seq(ws[1]) == "JOIN"@ {
                Some(Keyword::InnerJoin)
            } else {
                None
            }
        } else if w0 == "RIGHT"@ {
            if ws.len() >= 2 && spec_upper_seq(ws[1]) == "JOIN"@ {
                Some(Keyword::RightJoin)
            } else {
                None
            }
        } else if w0 == "FULL"@ {
            if ws.len() >= 2 && spec_upper_seq(ws[1]) == "JOIN"@ {
                Some(Keyword::FullJoin)
            } else {
                None
            }
        } else if w0 == "LEFT"@ {
            if ws.len() >= 2 && spec_upper_seq(ws[1]) == "JOIN"@ {
                Some(Keyword::LeftJoin)
            } else if ws.len() >= 3 && spec_upper_seq(ws[1]) == "OUTER"@ && spec_upper_seq(ws[2])
                == "JOIN"@ {
                Some(Keyword::LeftJoin)
            } else {
                None
            }
        } else {
            spec_single_keyword(w0)
        }
    }
}

/// The whitespace-separated words of a character sequence, from `pos` on.
pub open spec fn spec_words_from(s: Seq<char>, pos: int) -> Seq<Seq<char>>
    decreases s.len() - pos,
{
    if pos < 0 || pos >= s.len() {
        Seq::empty()
    } else if spec_is_space(s[pos]) {
        spec_words_from(s, pos + 1)
    } else {
        let e = spec_run_end(s, pos, CharClass::NonSpace);
        if pos < e <= s.len() {
            seq![s.subrange(pos, e)] + spec_words_from(s, e)
        } else {
            Seq::empty()
        }
    }
}

/// The whitespace-separated words of a character sequence.
pub open spec fn spec_words(s: Seq<char>) -> Seq<Seq<char>> {
    spec_words_from(s, 0)
}

/// Exec counterpart of [`spec_words_from`].
fn split_words_from(v: &Vec<char>, pos: usize) -> (r: Vec<Vec<char>>)
    requires
        pos <= v@.len(),
    ensures
        r.deep_view() == spec_words_from(v@, pos as int),
    decreases v@.len() - pos,
{
    if pos >= v.len() {
        let r: Vec<Vec<char>> = Vec::new();
        proof {
            assert(r.deep_view() =~= spec_words_from(v@, pos as int));
        }
        r
    } else if is_space(v[pos]) {
        split_words_from(v, pos + 1)
    } else {
        proof {
            lemma_run_end(v@, pos as int, CharClass::NonSpace);
        }
        let e = run_end(v, pos, CharClass::NonSpace);
        let w = chars_range(v, pos, e);
        let mut rest = split_words_from(v, e);
        let ghost rest_view = rest.deep_view();
        rest.insert(0, w);
        proof {
            assert(rest.deep_view() =~= seq![w@] + rest_view);
        }
        rest
    }
}

/// Split a character vector into its whitespace-separated words.
pub fn split_words(v: &Vec<char>) -> (r: Vec<Vec<char>>)
    ensures
        r.deep_view() == spec_words(v@),
{
    split_words_from(v, 0)
}

/// The keyword, if any, that the text `s` spells: its whitespace-separated
/// words matched case-insensitively, compound keywords included.
pub open spec fn spec_parse_keyword(s: Seq<char>) -> Option<Keyword> {
    spec_keyword_of_words(spec_words(s))
}

/// Classify a piece of text as a keyword, if it spells exactly one.
pub fn parse_keyword(s: &str) -> (r: Option<Keyword>)
    ensures
        r == spec_parse_keyword(s@),
{
    let v = str_chars(s);
    let words = split_words(&v);
    keyword_of_words(&words)
}

/// Exec counterpart of [`spec_keyword_of_words`].
pub fn keyword_of_words(ws: &Vec<Vec<char>>) -> (r: Option<Keyword>)
    ensures
        r == spec_keyword_of_words(ws.deep_view()),
{
    if ws.len() == 0 {
        return None;
    }
    let w0 = upper_vec(&ws[0]);
    proof {
        assert(ws.deep_view()[0] == ws@[0].deep_view());
    }
    if chars_eq_str(&w0, "GROUP") {
        if ws.len() >= 2 && second_word_is(ws, "BY") {
            Some(Keyword::GroupBy)
        } else {
            None
        }
    } else if chars_eq_str(&w0, "ORDER") {
        if ws.len() >= 2 && second_word_is(ws, "BY") {
            Some(Keyword::OrderBy)
        } else {
            None
        }
    } else if chars_eq_str(&w0, "INNER") {
        if ws.len() >= 2 && second_word_is(ws, "JOIN") {
            Some(Keyword::InnerJoin)
        } else {
            None
        }
    } else if chars_eq_str(&w0, "RIGHT") {
        if ws.len() >= 2 && second_word_is(ws, "JOIN") {
            Some(Keyword::RightJoin)
        } else {
            None
        }
    } else if chars_eq_str(&w0, "FULL") {
        if ws.len() >= 2 && second_word_is(ws, "JOIN") {
            Some(Keyword::FullJoin)
        } else {
            None
        }
    } else if chars_eq_str(&w0, "LEFT") {
        if ws.len() >= 2 && second_word_is(ws, "JOIN") {
            Some(Keyword::LeftJoin)
        } else if ws.len() >= 3 && second_word_is(ws, "OUTER") && word_is(ws, 2, "JOIN") {
            Some(Keyword::LeftJoin)
        } else {
            None
        }
    } else {
        single_keyword(&w0)
    }
}

/// Whether word `i` of the list, upper-cased, is exactly `expect`.
fn word_is(ws: &Vec<Vec<char>>, i: usize, expect: &str) -> (r: bool)
    requires
        i < ws@.len(),
    ensures
        r == (spec_upper_seq(ws.deep_view()[i as int]) == expect@),
{
    let u = upper_vec(&ws[i]);
    proof {
        assert(ws.deep_view()[i as int] == ws@[i as int].deep_view());
    }
    chars_eq_str(&u, expect)
}

/// Whether the second word of the list, upper-cased, is exactly `expect`.
fn second_word_is(ws: &Vec<Vec<char>>, expect: &str) -> (r: bool)
    requires
        ws@.len() >= 2,
    ensures
        r == (spec_upper_seq(ws.deep_view()[1]) == expect@),
{
    word_is(ws, 1, expect)
}

/// Words that may open a compound keyword. The original grammar treats a
/// word whose continuation is missing as an ordinary identifier.
pub trait KeywordExt {
    /// Whether this word expects a further word to complete a compound
    /// keyword (`GROUP`, `ORDER`, `INNER`, `LEFT`, `OUTER`, `RIGHT`,
    /// `FULL`, matched case-insensitively).
    fn has_suffix(&self) -> bool;
}

impl KeywordExt for String {
    fn has_suffix(&self) -> (r: bool)
        ensures
            r == (spec_expects_continuation(spec_upper_seq(self@)) || spec_upper_seq(self@)
                == "OUTER"@),
    {
        let v = str_chars(self.as_str());
        let u = upper_vec(&v);
        expects_continuation(&u) || chars_eq_str(&u, "OUTER")
    }
}

} // verus!
