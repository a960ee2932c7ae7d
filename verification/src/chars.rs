//! Character classes of the query language, and small helpers over
//! character vectors that the lexer is built from.

use vstd::prelude::*;

verus! {

/// Whitespace that separates tokens: space, tab, carriage return, newline.
pub open spec fn spec_is_space(c: char) -> bool {
    c == ' ' || c == '\t' || c == '\r' || c == '\n'
}

#[verifier::when_used_as_spec(spec_is_space)]
pub fn is_space(c: char) -> (r: bool)
    ensures
        r == spec_is_space(c),
{
    c == ' ' || c == '\t' || c == '\r' || c == '\n'
}

/// An ASCII decimal digit.
pub open spec fn spec_is_digit(c: char) -> bool {
    '0' <= c && c <= '9'
}

#[verifier::when_used_as_spec(spec_is_digit)]
pub fn is_digit(c: char) -> (r: bool)
    ensures
        r == spec_is_digit(c),
{
    '0' <= c && c <= '9'
}

/// A character that may appear in a number token: a digit or a dot.
/// Multiple dots are not rejected here; numbers are kept as raw text.
pub open spec fn spec_is_number_char(c: char) -> bool {
    spec_is_digit(c) || c == '.'
}

#[verifier::when_used_as_spec(spec_is_number_char)]
pub fn is_number_char(c: char) -> (r: bool)
    ensures
        r == spec_is_number_char(c),
{
    is_digit(c) || c == '.'
}

/// What `char::is_alphanumeric` returns for a character: whether it lies
/// in Unicode's alphabetic or numeric classes. The full table takes pages,
/// so the result carries a name; it depends on the character alone.
pub uninterp spec fn spec_is_unicode_alnum(c: char) -> bool;

/// Relies on `char::is_alphanumeric` from std: classifies a character by
/// Unicode's alphabetic and numeric properties, a function of the
/// character alone.
pub assume_specification[ char::is_alphanumeric ](c: char) -> (r: bool)
    ensures
        r == spec_is_unicode_alnum(c),
;

/// A character that may appear in a word. Within ASCII these are exactly
/// the letters, digits and underscore; beyond ASCII, whatever
/// `char::is_alphanumeric` accepts, under the name
/// [`spec_is_unicode_alnum`]. Words become keywords, function names or
/// identifiers.
pub open spec fn spec_is_word_char(c: char) -> bool {
    if (c as u32) <= 127 {
        ('a' <= c && c <= 'z') || ('A' <= c && c <= 'Z') || spec_is_digit(c) || c == '_'
    } else {
        spec_is_unicode_alnum(c)
    }
}

#[verifier::when_used_as_spec(spec_is_word_char)]
pub fn is_word_char(c: char) -> (r: bool)
    ensures
        r == spec_is_word_char(c),
{
    if (c as u32) <= 127 {
        ('a' <= c && c <= 'z') || ('A' <= c && c <= 'Z') || is_digit(c) || c == '_'
    } else {
        c.is_alphanumeric()
    }
}

/// A character that may start or continue a symbol run. `!` counts although
/// it is no complete symbol alone: it opens the comparator `!=`.
pub open spec fn spec_is_symbol_char(c: char) -> bool {
    c == ',' || c == '.' || c == '*' || c == '+' || c == '-' || c == '/' || c == '%' || c == '='
        || c == '!' || c == '<' || c == '>' || c == '(' || c == ')' || c == ';'
}

#[verifier::when_used_as_spec(spec_is_symbol_char)]
pub fn is_symbol_char(c: char) -> (r: bool)
    ensures
        r == spec_is_symbol_char(c),
{
    c == ',' || c == '.' || c == '*' || c == '+' || c == '-' || c == '/' || c == '%' || c == '='
        || c == '!' || c == '<' || c == '>' || c == '(' || c == ')' || c == ';'
}

/// A character that terminates a statement: `;` or `/`. A terminator always
/// stands as its own token and never joins a symbol run.
pub open spec fn spec_is_terminator_char(c: char) -> bool {
    c == ';' || c == '/'
}

#[verifier::when_used_as_spec(spec_is_terminator_char)]
pub fn is_terminator_char(c: char) -> (r: bool)
    ensures
        r == spec_is_terminator_char(c),
{
    c == ';' || c == '/'
}

/// The ASCII upper-case fold of a character; characters outside `a`..`z`
/// are unchanged. Keyword and function-name matching is case-insensitive
/// through this fold.
pub open spec fn spec_upper(c: char) -> char {
    if 'a' <= c && c <= 'z' {
        ((c as u8) - 32) as char
    } else {
        c
    }
}

#[verifier::when_used_as_spec(spec_upper)]
pub fn upper(c: char) -> (r: char)
    ensures
        r == spec_upper(c),
{
    if 'a' <= c && c <= 'z' {
        ((c as u8) - 32) as char
    } else {
        c
    }
}

/// The upper-case fold of a whole character sequence.
pub open spec fn spec_upper_seq(s: Seq<char>) -> Seq<char> {
    s.map_values(|c: char| spec_upper(c))
}

/// Upper-casing is idempotent: a folded character folds to itself.
pub proof fn lemma_upper_idempotent(c: char)
    ensures
        spec_upper(spec_upper(c)) == spec_upper(c),
{
}

/// Upper-casing preserves whitespace exactly: no character folds into or
/// out of the whitespace class.
pub proof fn lemma_upper_space(c: char)
    ensures
        spec_is_space(spec_upper(c)) == spec_is_space(c),
{
}

/// Upper-casing a sequence is idempotent.
pub proof fn lemma_upper_seq_idempotent(s: Seq<char>)
    ensures
        spec_upper_seq(spec_upper_seq(s)) == spec_upper_seq(s),
{
    assert forall|i: int| 0 <= i < s.len() implies spec_upper_seq(spec_upper_seq(s))[i]
        == spec_upper_seq(s)[i] by {
        lemma_upper_idempotent(s[i]);
    }
    assert(spec_upper_seq(spec_upper_seq(s)) =~= spec_upper_seq(s));
}

/// Upper-casing commutes with taking a subrange.
pub proof fn lemma_upper_seq_subrange(s: Seq<char>, a: int, b: int)
    requires
        0 <= a <= b <= s.len(),
    ensures
        spec_upper_seq(s).subrange(a, b) == spec_upper_seq(s.subrange(a, b)),
{
    assert(spec_upper_seq(s).subrange(a, b) =~= spec_upper_seq(s.subrange(a, b)));
}

/// Upper-case every character of a vector.
pub fn upper_vec(v: &Vec<char>) -> (r: Vec<char>)
    ensures
        r@ == spec_upper_seq(v@),
{
    let mut r: Vec<char> = Vec::new();
    let mut i: usize = 0;
    while i < v.len()
        invariant
            i <= v@.len(),
            r@ == spec_upper_seq(v@.subrange(0, i as int)),
        decreases v@.len() - i,
    {
        r.push(upper(v[i]));
        i = i + 1;
        proof {
            assert(v@.subrange(0, i as int).map_values(|c: char| spec_upper(c)) =~= v@.subrange(
                0,
                i - 1,
            ).map_values(|c: char| spec_upper(c)).push(spec_upper(v@[i - 1])));
        }
    }
    proof {
        assert(v@.subrange(0, v@.len() as int) =~= v@);
    }
    r
}

/// The characters of a string, in order, as a vector.
pub fn str_chars(s: &str) -> (r: Vec<char>)
    ensures
        r@ == s@,
{
    let n = s.unicode_len();
    let mut r: Vec<char> = Vec::new();
    let mut i: usize = 0;
    while i < n
        invariant
            n == s@.len(),
            i <= n,
            r@ == s@.subrange(0, i as int),
        decreases n - i,
    {
        r.push(s.get_char(i));
        i = i + 1;
        proof {
            assert(s@.subrange(0, i as int) =~= s@.subrange(0, i - 1).push(s@[i - 1]));
        }
    }
    proof {
        assert(s@.subrange(0, n as int) =~= s@);
    }
    r
}

/// Whether the characters of `v` spell exactly the string `s`.
pub fn chars_eq_str(v: &Vec<char>, s: &str) -> (r: bool)
    ensures
        r == (v@ =~= s@),
{
    let n = s.unicode_len();
    if v.len() != n {
        return false;
    }
    let mut i: usize = 0;
    while i < n
        invariant
            n == s@.len(),
            v@.len() == n,
            i <= n,
            forall|j: int| 0 <= j < i ==> v@[j] == s@[j],
        decreases n - i,
    {
        if v[i] != s.get_char(i) {
            return false;
        }
        i = i + 1;
    }
    true
}

/// The deep view of a character vector is its plain view.
pub broadcast proof fn lemma_deep_view_chars(v: Vec<char>)
    ensures
        #[trigger] v.deep_view() == v@,
{
    assert(v.deep_view() =~= v@);
}

/// A class of characters a lexical run may be made of.
#[derive(Debug, PartialEq, Eq, Structural, Clone, Copy)]
pub enum CharClass {
    /// Whitespace characters: the runs between the words of a compound
    /// keyword.
    Space,
    /// Any character that is not whitespace: the runs of word splitting.
    NonSpace,
    /// Word characters: letters, digits, underscore.
    Word,
    /// Digits and dots: the body of a number token.
    Number,
    /// Symbol characters other than terminators: a symbol run stops at a
    /// terminator so that `!=;` lexes as `!=` then `;`.
    SymbolRun,
    /// Any character but the given one: comment bodies (up to a newline)
    /// and quoted literals (up to the closing quote).
    NotChar(char),
}

/// Whether `c` belongs to the class `k`.
pub open spec fn spec_in_class(c: char, k: CharClass) -> bool {
    match k {
        CharClass::Space => spec_is_space(c),
        CharClass::NonSpace => !spec_is_space(c),
        CharClass::Word => spec_is_word_char(c),
        CharClass::Number => spec_is_number_char(c),
        CharClass::SymbolRun => spec_is_symbol_char(c) && !spec_is_terminator_char(c),
        CharClass::NotChar(stop) => c != stop,
    }
}

#[verifier::when_used_as_spec(spec_in_class)]
pub fn in_class(c: char, k: CharClass) -> (r: bool)
    ensures
        r == spec_in_class(c, k),
{
    match k {
        CharClass::Space => is_space(c),
        CharClass::NonSpace => !is_space(c),
        CharClass::Word => is_word_char(c),
        CharClass::Number => is_number_char(c),
        CharClass::SymbolRun => is_symbol_char(c) && !is_terminator_char(c),
        CharClass::NotChar(stop) => c != stop,
    }
}

/// The first position at or after `pos` whose character is outside the
/// class `k`, or the end of the sequence: the run starting at `pos` is
/// `s[pos .. spec_run_end(s, pos, k)]`.
pub open spec fn spec_run_end(s: Seq<char>, pos: int, k: CharClass) -> int
    decreases s.len() - pos,
{
    if pos < s.len() && spec_in_class(s[pos], k) {
        spec_run_end(s, pos + 1, k)
    } else {
        pos
    }
}

/// The run end lies between `pos` and the end of the sequence, every
/// character of the run is in the class, and the character after the run,
/// if any, is not.
pub proof fn lemma_run_end(s: Seq<char>, pos: int, k: CharClass)
    requires
        0 <= pos <= s.len(),
    ensures
        pos <= spec_run_end(s, pos, k) <= s.len(),
        forall|j: int| pos <= j < spec_run_end(s, pos, k) ==> spec_in_class(s[j], k),
        spec_run_end(s, pos, k) < s.len() ==> !spec_in_class(s[spec_run_end(s, pos, k)], k),
    decreases s.len() - pos,
{
    if pos < s.len() && spec_in_class(s[pos], k) {
        lemma_run_end(s, pos + 1, k);
    }
}

/// A run whose characters all lie in the class, and which the following
/// character (if any) does not continue, ends exactly at `e`.
pub proof fn lemma_run_end_exact(s: Seq<char>, pos: int, e: int, k: CharClass)
    requires
        0 <= pos <= e <= s.len(),
        forall|j: int| pos <= j < e ==> spec_in_class(#[trigger] s[j], k),
        e < s.len() ==> !spec_in_class(s[e], k),
    ensures
        spec_run_end(s, pos, k) == e,
    decreases e - pos,
{
    if pos < e {
        lemma_run_end_exact(s, pos + 1, e, k);
    }
}

/// Exec counterpart of [`spec_run_end`].
pub fn run_end(v: &Vec<char>, pos: usize, k: CharClass) -> (r: usize)
    requires
        pos <= v@.len(),
    ensures
        r == spec_run_end(v@, pos as int, k),
        pos <= r <= v@.len(),
{
    proof {
        lemma_run_end(v@, pos as int, k);
    }
    let mut i: usize = pos;
    while i < v.len() && in_class(v[i], k)
        invariant
            pos <= i <= v@.len(),
            spec_run_end(v@, pos as int, k) == spec_run_end(v@, i as int, k),
        decreases v@.len() - i,
    {
        i = i + 1;
    }
    i
}

/// The first position at or before `e` with no whitespace directly before
/// it: trailing whitespace of `s[..e]` begins here.
pub open spec fn spec_trim_end_idx(s: Seq<char>, e: int) -> int
    decreases e,
{
    if e > 0 && spec_is_space(s[e - 1]) {
        spec_trim_end_idx(s, e - 1)
    } else {
        e
    }
}

/// The sequence with its leading and trailing whitespace stripped.
pub open spec fn spec_trim(s: Seq<char>) -> Seq<char> {
    let b = spec_run_end(s, 0, CharClass::Space);
    let e = spec_trim_end_idx(s, s.len() as int);
    if b <= e {
        s.subrange(b, e)
    } else {
        Seq::empty()
    }
}

/// Strip leading and trailing whitespace from a character vector.
pub fn trim_chars(v: &Vec<char>) -> (r: Vec<char>)
    ensures
        r@ == spec_trim(v@),
{
    let b = run_end(v, 0, CharClass::Space);
    let mut e: usize = v.len();
    while e > 0 && is_space(v[e - 1])
        invariant
            e <= v@.len(),
            spec_trim_end_idx(v@, v@.len() as int) == spec_trim_end_idx(v@, e as int),
        decreases e,
    {
        e = e - 1;
    }
    if b <= e {
        chars_range(v, b, e)
    } else {
        let r: Vec<char> = Vec::new();
        proof {
            assert(r@ =~= spec_trim(v@));
        }
        r
    }
}

/// Copy a range of a character vector.
pub fn chars_range(v: &Vec<char>, from: usize, to: usize) -> (r: Vec<char>)
    requires
        from <= to <= v@.len(),
    ensures
        r@ == v@.subrange(from as int, to as int),
{
    let mut part: Vec<char> = Vec::new();
    let mut i: usize = from;
    while i < to
        invariant
            from <= i <= to <= v@.len(),
            part@ == v@.subrange(from as int, i as int),
        decreases to - i,
    {
        part.push(v[i]);
        i = i + 1;
        proof {
            assert(v@.subrange(from as int, i as int) =~= v@.subrange(from as int, i - 1).push(
                v@[i - 1],
            ));
        }
    }
    part
}

/// Build an owned string from a range of a character vector.
pub fn string_of_range(v: &Vec<char>, from: usize, to: usize) -> (r: String)
    requires
        from <= to <= v@.len(),
    ensures
        r@ == v@.subrange(from as int, to as int),
{
    let part = chars_range(v, from, to);
    chars_to_string(&part)
}

/// Relies on `String: FromIterator<char>` from std: collecting an iterator
/// of characters yields the string of exactly those characters, in order.
#[verifier::external_body]
fn chars_to_string(v: &Vec<char>) -> (s: String)
    ensures
        s@ == v@,
{
    v.iter().collect()
}

} // verus!
