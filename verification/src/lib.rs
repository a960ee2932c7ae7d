//! Front end for a small SQL-like query language.
//!
//! The crate turns raw query text into a validated statement tree in two
//! layers: a lexer (text to tokens) and a recursive-descent parser with
//! precedence climbing (tokens to a typed statement). Every parsing function
//! is specified against a mathematical twin that defines the grammar over
//! sequences, so the tree a caller receives is pinned down exactly, for
//! well-formed and for malformed input alike.

pub mod ast;
pub mod chars;
pub mod clause_parser;
pub mod cursor;
pub mod error;
pub mod expression_parser;
pub mod function;
pub mod keyword;
pub mod laws;
pub mod lexer;
pub mod statement_parser;
pub mod structs;
pub mod symbol;
pub mod token;
