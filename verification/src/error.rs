//! The closed taxonomy of parse errors, and its mathematical view.
//!
//! Every parsing function either fully succeeds or fails immediately with
//! one of these errors; there is no recovery and no partial result.

use vstd::prelude::*;
use crate::token::{Token, TokenV};

verus! {

/// Why a parse failed. Each variant carries the minimal context a caller
/// needs for a diagnostic.
#[derive(Debug, PartialEq, Clone)]
pub enum ParseError {
    /// A token stood where the grammar does not allow it.
    UnexpectedToken(Token),
    /// The named token was required and the input ended without it.
    MissingToken(Token),
    /// A comparison broke off before its comparator symbol.
    MissingComparator,
    /// A column list broke off before a column name.
    MissingColumn,
    /// An `ORDER BY` column carried no `ASC` or `DESC`.
    MissingSort,
    /// A `VALUES` list held no value.
    MissingValue,
    /// The statement ended without `;` or `/`.
    MissingTerminator,
    /// A function call was required and none stood there.
    MissingFunction,
    /// A `FROM` clause named no table.
    MissingTable,
    /// A malformed construct with a free-text description.
    SyntaxError(String),
    /// An `INSERT` value list did not match its column list; carries the
    /// expected count.
    IncorrectValueCount(usize),
    /// A function call had the wrong number of arguments; carries the
    /// expected count.
    IncorrectArgCount(u8),
    /// An expression broke off or was empty.
    IncorrectExpression,
    /// A condition was empty where one was required.
    IncorrectCondition,
    /// A function call was malformed.
    IncorrectFunction,
}

/// The mathematical view of a [`ParseError`].
#[verifier::ext_equal]
pub enum ErrorV {
    UnexpectedToken(TokenV),
    MissingToken(TokenV),
    MissingComparator,
    MissingColumn,
    MissingSort,
    MissingValue,
    MissingTerminator,
    MissingFunction,
    MissingTable,
    SyntaxError(Seq<char>),
    IncorrectValueCount(int),
    IncorrectArgCount(int),
    IncorrectExpression,
    IncorrectCondition,
    IncorrectFunction,
}

impl View for ParseError {
    type V = ErrorV;

    open spec fn view(&self) -> ErrorV {
        match self {
            ParseError::UnexpectedToken(t) => ErrorV::UnexpectedToken(t@),
            ParseError::MissingToken(t) => ErrorV::MissingToken(t@),
            ParseError::MissingComparator => ErrorV::MissingComparator,
            ParseError::MissingColumn => ErrorV::MissingColumn,
            ParseError::MissingSort => ErrorV::MissingSort,
            ParseError::MissingValue => ErrorV::MissingValue,
            ParseError::MissingTerminator => ErrorV::MissingTerminator,
            ParseError::MissingFunction => ErrorV::MissingFunction,
            ParseError::MissingTable => ErrorV::MissingTable,
            ParseError::SyntaxError(s) => ErrorV::SyntaxError(s@),
            ParseError::IncorrectValueCount(n) => ErrorV::IncorrectValueCount(*n as int),
            ParseError::IncorrectArgCount(n) => ErrorV::IncorrectArgCount(*n as int),
            ParseError::IncorrectExpression => ErrorV::IncorrectExpression,
            ParseError::IncorrectCondition => ErrorV::IncorrectCondition,
            ParseError::IncorrectFunction => ErrorV::IncorrectFunction,
        }
    }
}

impl DeepView for ParseError {
    type V = ErrorV;

    open spec fn deep_view(&self) -> ErrorV {
        self.view()
    }
}

} // verus!
