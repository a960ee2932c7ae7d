//! Built-in function names and their argument arity.

use vstd::prelude::*;
use crate::ast::{Expression, ExprV, lemma_deep_view_exprs};
use crate::chars::{spec_trim, trim_chars, spec_upper_seq, upper_vec, chars_eq_str, str_chars};
use crate::error::{ParseError, ErrorV};

verus! {

/// A built-in function name. Every aggregate takes exactly one argument;
/// `CONCAT` takes a variable number of arguments, at least one.
#[derive(Debug, PartialEq, Eq, Structural, Clone, Copy)]
pub enum Function {
    Sum,
    Avg,
    Count,
    Max,
    Min,
    Concat,
}

impl Function {
    /// The canonical source text of the function name, in upper case.
    pub open spec fn spec_text(&self) -> Seq<char> {
        match self {
            Function::Sum => "SUM"@,
            Function::Avg => "AVG"@,
            Function::Count => "COUNT"@,
            Function::Max => "MAX"@,
            Function::Min => "MIN"@,
            Function::Concat => "CONCAT"@,
        }
    }

    /// Serialize the function name back to its canonical source text.
    pub fn to_text(&self) -> (r: String)
        ensures
            r@ == self.spec_text(),
    {
        let text = match self {
            Function::Sum => "SUM",
            Function::Avg => "AVG",
            Function::Count => "COUNT",
            Function::Max => "MAX",
            Function::Min => "MIN",
            Function::Concat => "CONCAT",
        };
        text.to_owned()
    }

    /// The required argument count of the function, or `None` for a
    /// variable-arity function (`CONCAT`, which takes one or more).
    pub open spec fn spec_arity(&self) -> Option<u8> {
        match self {
            Function::Concat => None,
            _ => Some(1u8),
        }
    }

    #[verifier::when_used_as_spec(spec_arity)]
    pub fn arity(&self) -> (r: Option<u8>)
        ensures
            r == self.spec_arity(),
    {
        match self {
            Function::Concat => None,
            _ => Some(1u8),
        }
    }
}

/// The arity rule of a function call: a fixed-arity function must be
/// given exactly its count of arguments, and the variable-arity `CONCAT`
/// at least one; otherwise the call fails with the expected count.
pub open spec fn spec_function_new(f: Function, args: Seq<ExprV>) -> Result<ExprV, ErrorV> {
    match f.spec_arity() {
        Some(n) => if args.len() == n as int {
            Ok(ExprV::FunctionCall(f, args))
        } else {
            Err(ErrorV::IncorrectArgCount(n as int))
        },
        None => if args.len() >= 1 {
            Ok(ExprV::FunctionCall(f, args))
        } else {
            Err(ErrorV::IncorrectArgCount(1))
        },
    }
}

impl Function {
    /// Build a function-call expression from parsed arguments, checking
    /// the arity rule of [`spec_function_new`].
    pub fn new(f: Function, args: Vec<Expression>) -> (r: Result<Expression, ParseError>)
        ensures
            match r {
                Ok(e) => spec_function_new(f, args.deep_view()) == Ok::<ExprV, ErrorV>(e@),
                Err(err) => spec_function_new(f, args.deep_view()) == Err::<ExprV, ErrorV>(err@),
            },
    {
        proof {
            lemma_deep_view_exprs(args);
        }
        match f.arity() {
            Some(n) => {
                if args.len() == n as usize {
                    Ok(Expression::FunctionCall(f, args))
                } else {
                    Err(ParseError::IncorrectArgCount(n))
                }
            },
            None => {
                if args.len() >= 1 {
                    Ok(Expression::FunctionCall(f, args))
                } else {
                    Err(ParseError::IncorrectArgCount(1))
                }
            },
        }
    }
}

/// The function named by an upper-cased word, if any.
pub open spec fn spec_function_of_word(w: Seq<char>) -> Option<Function> {
    if w == "SUM"@ {
        Some(Function::Sum)
    } else if w == "AVG"@ {
        Some(Function::Avg)
    } else if w == "COUNT"@ {
        Some(Function::Count)
    } else if w == "MAX"@ {
        Some(Function::Max)
    } else if w == "MIN"@ {
        Some(Function::Min)
    } else if w == "CONCAT"@ {
        Some(Function::Concat)
    } else {
        None
    }
}

/// Exec counterpart of [`spec_function_of_word`]; takes the word already
/// upper-cased.
pub fn function_of_word(w: &Vec<char>) -> (r: Option<Function>)
    ensures
        r == spec_function_of_word(w@),
{
    if chars_eq_str(w, "SUM") {
        Some(Function::Sum)
    } else if chars_eq_str(w, "AVG") {
        Some(Function::Avg)
    } else if chars_eq_str(w, "COUNT") {
        Some(Function::Count)
    } else if chars_eq_str(w, "MAX") {
        Some(Function::Max)
    } else if chars_eq_str(w, "MIN") {
        Some(Function::Min)
    } else if chars_eq_str(w, "CONCAT") {
        Some(Function::Concat)
    } else {
        None
    }
}

/// The function, if any, whose name the text `s` spells, matched
/// case-insensitively with surrounding whitespace ignored.
pub open spec fn spec_parse_function(s: Seq<char>) -> Option<Function> {
    spec_function_of_word(spec_upper_seq(spec_trim(s)))
}

/// Classify a piece of text as a built-in function name.
pub fn parse_function(s: &str) -> (r: Option<Function>)
    ensures
        r == spec_parse_function(s@),
{
    let v = str_chars(s);
    let t = trim_chars(&v);
    let u = upper_vec(&t);
    function_of_word(&u)
}

/// Whether the text `s` names a built-in function.
pub fn is_function(s: &str) -> (r: bool)
    ensures
        r == spec_parse_function(s@).is_some(),
{
    parse_function(s).is_some()
}

} // verus!
