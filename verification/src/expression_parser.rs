//! The expression and condition parsers: precedence climbing for
//! arithmetic, a recursive fold for boolean conditions.
//!
//! Each executable function is pinned to a mathematical twin over token
//! views: the twin is the grammar, written as a recursive definition, and
//! every function returns exactly what its twin returns, errors included.
//! `expression := term (('+' | '-') term)*` and
//! `term := factor (('*' | '/') factor)*` make binary operators
//! left-associative with `*` and `/` binding tighter; a factor is a leaf
//! value, a function call, a parenthesized expression, or a unary sign,
//! which binds tightest and is right-recursive.

use vstd::prelude::*;
use crate::ast::{Expression, ExprV, Value, ValueV};
use crate::cursor::{Cursor, cursor_frame};
use crate::error::{ParseError, ErrorV};
use crate::function::{Function, spec_function_new};
use crate::keyword::Keyword;
use crate::structs::{Condition, CondV};
use crate::symbol::Symbol;
use crate::token::{Token, TokenV};

verus! {

/// The grammar of a factor: a leaf value, a function call, a parenthesized
/// expression, or a unary sign applied to a factor.
pub open spec fn spec_parse_factor(toks: Seq<TokenV>, pos: int) -> Result<(ExprV, int), ErrorV>
    decreases toks.len() - pos, 1int,
{
    if pos < 0 || pos >= toks.len() {
        Err(ErrorV::IncorrectExpression)
    } else {
        match toks[pos] {
            TokenV::Identifier(s) => Ok((ExprV::Value(ValueV::Identifier(s)), pos + 1)),
            TokenV::Number(s) => Ok((ExprV::Value(ValueV::Number(s)), pos + 1)),
            TokenV::Variable(s) => Ok((ExprV::Value(ValueV::Variable(s)), pos + 1)),
            TokenV::Function(f) => spec_parse_function_call(toks, pos),
            TokenV::Symbol(Symbol::LeftParen) => match spec_parse_expression(toks, pos + 1) {
                Err(e) => Err(e),
                Ok((e, p)) => if 0 <= p < toks.len() && toks[p] == TokenV::Symbol(
                    Symbol::RightParen,
                ) {
                    Ok((e, p + 1))
                } else {
                    Err(ErrorV::MissingToken(TokenV::Symbol(Symbol::RightParen)))
                },
            },
            TokenV::Symbol(Symbol::Plus) => match spec_parse_factor(toks, pos + 1) {
                Err(e) => Err(e),
                Ok((x, p)) => Ok((ExprV::UnaryOp(Symbol::Plus, Box::new(x)), p)),
            },
            TokenV::Symbol(Symbol::Minus) => match spec_parse_factor(toks, pos + 1) {
                Err(e) => Err(e),
                Ok((x, p)) => Ok((ExprV::UnaryOp(Symbol::Minus, Box::new(x)), p)),
            },
            t => Err(ErrorV::UnexpectedToken(t)),
        }
    }
}

/// The grammar of a function call: the function token, `(`, a
/// comma-separated argument list, `)`, then the arity check.
pub open spec fn spec_parse_function_call(toks: Seq<TokenV>, pos: int) -> Result<
    (ExprV, int),
    ErrorV,
>
    decreases toks.len() - pos, 0int,
{
    if pos < 0 || pos >= toks.len() {
        Err(ErrorV::MissingFunction)
    } else {
        match toks[pos] {
            TokenV::Function(f) => if pos + 1 < toks.len() {
                if toks[pos + 1] == TokenV::Symbol(Symbol::LeftParen) {
                    match spec_parse_args(toks, pos + 2, Seq::empty()) {
                        Err(e) => Err(e),
                        Ok((args, p)) => match spec_function_new(f, args) {
                            Ok(e) => Ok((e, p)),
                            Err(e) => Err(e),
                        },
                    }
                } else {
                    Err(ErrorV::UnexpectedToken(toks[pos + 1]))
                }
            } else {
                Err(ErrorV::MissingToken(TokenV::Symbol(Symbol::LeftParen)))
            },
            t => Err(ErrorV::UnexpectedToken(t)),
        }
    }
}

/// The grammar of a function argument list: expressions separated by
/// commas, ended by the closing parenthesis, which is consumed.
pub open spec fn spec_parse_args(toks: Seq<TokenV>, pos: int, acc: Seq<ExprV>) -> Result<
    (Seq<ExprV>, int),
    ErrorV,
>
    decreases toks.len() - pos, 4int,
{
    if pos < 0 || pos >= toks.len() {
        Err(ErrorV::IncorrectExpression)
    } else if toks[pos] == TokenV::Symbol(Symbol::RightParen) {
        Ok((acc, pos + 1))
    } else {
        match spec_parse_expression(toks, pos) {
            Err(e) => Err(e),
            Ok((e, p)) => if pos < p <= toks.len() {
                if p < toks.len() && toks[p] == TokenV::Symbol(Symbol::Comma) {
                    spec_parse_args(toks, p + 1, acc.push(e))
                } else {
                    spec_parse_args(toks, p, acc.push(e))
                }
            } else {
                Err(ErrorV::IncorrectExpression)
            },
        }
    }
}

/// The grammar of a term: a factor, then any number of `*` or `/` factors
/// folded left-associatively.
pub open spec fn spec_parse_next_term(toks: Seq<TokenV>, pos: int) -> Result<(ExprV, int), ErrorV>
    decreases toks.len() - pos, 2int,
{
    match spec_parse_factor(toks, pos) {
        Err(e) => Err(e),
        Ok((left, p)) => if pos < p <= toks.len() {
            spec_parse_term_rest(toks, p, left)
        } else {
            Err(ErrorV::IncorrectExpression)
        },
    }
}

/// The fold of a term's tail: while a `*` or `/` follows, combine the
/// running left tree with the next factor.
pub open spec fn spec_parse_term_rest(toks: Seq<TokenV>, pos: int, left: ExprV) -> Result<
    (ExprV, int),
    ErrorV,
>
    decreases toks.len() - pos, 2int,
{
    if 0 <= pos < toks.len() && (toks[pos] == TokenV::Symbol(Symbol::Asterisk) || toks[pos]
        == TokenV::Symbol(Symbol::Slash)) {
        let op = if toks[pos] == TokenV::Symbol(Symbol::Asterisk) {
            Symbol::Asterisk
        } else {
            Symbol::Slash
        };
        match spec_parse_factor(toks, pos + 1) {
            Err(e) => Err(e),
            Ok((right, p)) => if pos < p <= toks.len() {
                spec_parse_term_rest(toks, p, ExprV::BinaryOp(op, Box::new(left), Box::new(right)))
            } else {
                Err(ErrorV::IncorrectExpression)
            },
        }
    } else {
        Ok((left, pos))
    }
}

/// The grammar of an expression: a term, then any number of `+` or `-`
/// terms folded left-associatively.
pub open spec fn spec_parse_expression(toks: Seq<TokenV>, pos: int) -> Result<(ExprV, int), ErrorV>
    decreases toks.len() - pos, 3int,
{
    match spec_parse_next_term(toks, pos) {
        Err(e) => Err(e),
        Ok((left, p)) => if pos < p <= toks.len() {
            spec_parse_expression_rest(toks, p, left)
        } else {
            Err(ErrorV::IncorrectExpression)
        },
    }
}

/// The fold of an expression's tail: while a `+` or `-` follows, combine
/// the running left tree with the next term.
pub open spec fn spec_parse_expression_rest(toks: Seq<TokenV>, pos: int, left: ExprV) -> Result<
    (ExprV, int),
    ErrorV,
>
    decreases toks.len() - pos, 3int,
{
    if 0 <= pos < toks.len() && (toks[pos] == TokenV::Symbol(Symbol::Plus) || toks[pos]
        == TokenV::Symbol(Symbol::Minus)) {
        let op = if toks[pos] == TokenV::Symbol(Symbol::Plus) {
            Symbol::Plus
        } else {
            Symbol::Minus
        };
        match spec_parse_next_term(toks, pos + 1) {
            Err(e) => Err(e),
            Ok((right, p)) => if pos < p <= toks.len() {
                spec_parse_expression_rest(
                    toks,
                    p,
                    ExprV::BinaryOp(op, Box::new(left), Box::new(right)),
                )
            } else {
                Err(ErrorV::IncorrectExpression)
            },
        }
    } else {
        Ok((left, pos))
    }
}

/// The grammar of a comparison: a full expression, a comparator symbol,
/// then a full expression.
pub open spec fn spec_parse_comparison(toks: Seq<TokenV>, pos: int) -> Result<(CondV, int), ErrorV>
    decreases toks.len() - pos, 7int,
{
    match spec_parse_expression(toks, pos) {
        Err(e) => Err(e),
        Ok((l, p)) => if pos < p <= toks.len() {
            if p >= toks.len() {
                Err(ErrorV::MissingComparator)
            } else {
                match toks[p] {
                    TokenV::Symbol(sym) => if sym.spec_is_comparator() {
                        match spec_parse_expression(toks, p + 1) {
                            Err(e) => Err(e),
                            Ok((r2, p2)) => Ok(
                                (CondV::Comparison { left: l, operator: sym, right: r2 }, p2),
                            ),
                        }
                    } else {
                        Err(ErrorV::UnexpectedToken(toks[p]))
                    },
                    t => Err(ErrorV::UnexpectedToken(t)),
                }
            }
        } else {
            Err(ErrorV::IncorrectExpression)
        },
    }
}

/// The running fold of a condition: scan token by token, folding `AND`,
/// `OR` and `NOT` over the condition accumulated so far, descending into
/// parentheses, reading comparisons, skipping comments, and stopping
/// before a terminator, an unmatched `)`, or any other keyword.
pub open spec fn spec_cond_loop(toks: Seq<TokenV>, pos: int, left: Option<CondV>) -> Result<
    (CondV, int),
    ErrorV,
>
    decreases toks.len() - pos, 8int,
{
    if pos < 0 || pos >= toks.len() {
        match left {
            Some(cond) => Ok((cond, pos)),
            None => Err(ErrorV::IncorrectCondition),
        }
    } else {
        match toks[pos] {
            TokenV::Keyword(Keyword::And) => match left {
                None => Err(ErrorV::IncorrectCondition),
                Some(l) => match spec_parse_condition(toks, pos + 1) {
                    Err(e) => Err(e),
                    Ok((rhs, p)) => if pos < p <= toks.len() {
                        spec_cond_loop(
                            toks,
                            p,
                            Some(CondV::And { left: Box::new(l), right: Box::new(rhs) }),
                        )
                    } else {
                        Err(ErrorV::IncorrectCondition)
                    },
                },
            },
            TokenV::Keyword(Keyword::Or) => match left {
                None => Err(ErrorV::IncorrectCondition),
                Some(l) => match spec_parse_condition(toks, pos + 1) {
                    Err(e) => Err(e),
                    Ok((rhs, p)) => if pos < p <= toks.len() {
                        spec_cond_loop(
                            toks,
                            p,
                            Some(CondV::Or { left: Box::new(l), right: Box::new(rhs) }),
                        )
                    } else {
                        Err(ErrorV::IncorrectCondition)
                    },
                },
            },
            TokenV::Keyword(Keyword::Not) => match spec_parse_condition(toks, pos + 1) {
                Err(e) => Err(e),
                Ok((rhs, p)) => if pos < p <= toks.len() {
                    spec_cond_loop(toks, p, Some(CondV::Not(Box::new(rhs))))
                } else {
                    Err(ErrorV::IncorrectCondition)
                },
            },
            TokenV::Symbol(Symbol::LeftParen) => match spec_parse_condition(toks, pos + 1) {
                Err(e) => Err(e),
                Ok((inner, p)) => if pos < p < toks.len() && toks[p] == TokenV::Symbol(
                    Symbol::RightParen,
                ) {
                    spec_cond_loop(toks, p + 1, Some(inner))
                } else {
                    Err(ErrorV::MissingToken(TokenV::Symbol(Symbol::RightParen)))
                },
            },
            TokenV::Symbol(Symbol::Semicolon) | TokenV::Symbol(Symbol::Slash) | TokenV::Symbol(
                Symbol::RightParen,
            ) | TokenV::Keyword(_) => match left {
                Some(cond) => Ok((cond, pos)),
                None => Err(ErrorV::IncorrectCondition),
            },
            TokenV::Symbol(_) | TokenV::Number(_) => Err(ErrorV::UnexpectedToken(toks[pos])),
            TokenV::Comment(_) => spec_cond_loop(toks, pos + 1, left),
            TokenV::Identifier(_) | TokenV::Variable(_) | TokenV::Function(_) => match
                spec_parse_comparison(toks, pos) {
                Err(e) => Err(e),
                Ok((cond, p)) => if pos < p <= toks.len() {
                    spec_cond_loop(toks, p, Some(cond))
                } else {
                    Err(ErrorV::IncorrectCondition)
                },
            },
        }
    }
}

/// The grammar of a condition: the fold started with nothing accumulated.
/// An empty condition is a failure.
pub open spec fn spec_parse_condition(toks: Seq<TokenV>, pos: int) -> Result<(CondV, int), ErrorV>
    decreases toks.len() - pos, 9int,
{
    spec_cond_loop(toks, pos, None)
}

/// Parse one comparison: expression, comparator, expression.
fn parse_comparison(c: &mut Cursor) -> (r: Result<Condition, ParseError>)
    requires
        old(c).wf(),
    ensures
        cursor_frame(*old(c), *final(c)),
        match r {
            Ok(cond) => spec_parse_comparison(old(c).toks(), old(c).pos as int) == Ok::<
                (CondV, int),
                ErrorV,
            >((cond@, final(c).pos as int)) && old(c).pos < final(c).pos,
            Err(err) => spec_parse_comparison(old(c).toks(), old(c).pos as int) == Err::<
                (CondV, int),
                ErrorV,
            >(err@),
        },
    decreases c.toks().len() - c.pos, 7int,
{
    let left = match parse_expression(c) {
        Ok(e) => e,
        Err(err) => {
            return Err(err);
        },
    };
    let operator = match c.peek() {
        None => {
            return Err(ParseError::MissingComparator);
        },
        Some(Token::Symbol(sym)) => {
            if sym.is_comparator() {
                *sym
            } else {
                return Err(ParseError::UnexpectedToken(Token::Symbol(*sym)));
            }
        },
        Some(t) => {
            return Err(ParseError::UnexpectedToken(t.clone()));
        },
    };
    c.advance();
    let right = match parse_expression(c) {
        Ok(e) => e,
        Err(err) => {
            return Err(err);
        },
    };
    Ok(Condition::Comparison { left, operator, right })
}

/// One pass of the condition fold; `left` is the condition accumulated so
/// far.
fn parse_cond_loop(c: &mut Cursor, left: Option<Condition>) -> (r: Result<Condition, ParseError>)
    requires
        old(c).wf(),
    ensures
        cursor_frame(*old(c), *final(c)),
        match r {
            Ok(cond) => spec_cond_loop(old(c).toks(), old(c).pos as int, opt_cond_view(left))
                == Ok::<(CondV, int), ErrorV>((cond@, final(c).pos as int)),
            Err(err) => spec_cond_loop(old(c).toks(), old(c).pos as int, opt_cond_view(left))
                == Err::<(CondV, int), ErrorV>(err@),
        },
    decreases c.toks().len() - c.pos, 8int,
{
    let t = match c.peek() {
        None => {
            return match left {
                Some(cond) => Ok(cond),
                None => Err(ParseError::IncorrectCondition),
            };
        },
        Some(t) => t,
    };
    match t {
        Token::Keyword(Keyword::And) => match left {
            None => Err(ParseError::IncorrectCondition),
            Some(l) => {
                c.advance();
                match parse_condition(c) {
                    Err(err) => Err(err),
                    Ok(rhs) => parse_cond_loop(
                        c,
                        Some(Condition::And { left: Box::new(l), right: Box::new(rhs) }),
                    ),
                }
            },
        },
        Token::Keyword(Keyword::Or) => match left {
            None => Err(ParseError::IncorrectCondition),
            Some(l) => {
                c.advance();
                match parse_condition(c) {
                    Err(err) => Err(err),
                    Ok(rhs) => parse_cond_loop(
                        c,
                        Some(Condition::Or { left: Box::new(l), right: Box::new(rhs) }),
                    ),
                }
            },
        },
        Token::Keyword(Keyword::Not) => {
            c.advance();
            match parse_condition(c) {
                Err(err) => Err(err),
                Ok(rhs) => parse_cond_loop(c, Some(Condition::Not(Box::new(rhs)))),
            }
        },
        Token::Symbol(Symbol::LeftParen) => {
            c.advance();
            match parse_condition(c) {
                Err(err) => Err(err),
                Ok(inner) => match c.peek() {
                    Some(Token::Symbol(Symbol::RightParen)) => {
                        c.advance();
                        parse_cond_loop(c, Some(inner))
                    },
                    _ => Err(ParseError::MissingToken(Token::Symbol(Symbol::RightParen))),
                },
            }
        },
        Token::Symbol(Symbol::Semicolon) | Token::Symbol(Symbol::Slash) | Token::Symbol(
            Symbol::RightParen,
        ) | Token::Keyword(_) => match left {
            Some(cond) => Ok(cond),
            None => Err(ParseError::IncorrectCondition),
        },
        Token::Symbol(_) | Token::Number(_) => Err(ParseError::UnexpectedToken(t.clone())),
        Token::Comment(_) => {
            c.advance();
            parse_cond_loop(c, left)
        },
        Token::Identifier(_) | Token::Variable(_) | Token::Function(_) => {
            match parse_comparison(c) {
                Err(err) => Err(err),
                Ok(cond) => parse_cond_loop(c, Some(cond)),
            }
        },
    }
}

/// The view of an optional condition.
pub open spec fn opt_cond_view(o: Option<Condition>) -> Option<CondV> {
    match o {
        Some(cond) => Some(cond@),
        None => None,
    }
}

/// Parse one boolean condition: the left-to-right fold of comparisons
/// under `AND`, `OR`, `NOT` and parentheses, stopping before a statement
/// terminator, an unmatched `)`, or a clause keyword. An empty condition
/// fails.
pub fn parse_condition(c: &mut Cursor) -> (r: Result<Condition, ParseError>)
    requires
        old(c).wf(),
    ensures
        cursor_frame(*old(c), *final(c)),
        match r {
            Ok(cond) => spec_parse_condition(old(c).toks(), old(c).pos as int) == Ok::<
                (CondV, int),
                ErrorV,
            >((cond@, final(c).pos as int)),
            Err(err) => spec_parse_condition(old(c).toks(), old(c).pos as int) == Err::<
                (CondV, int),
                ErrorV,
            >(err@),
        },
    decreases c.toks().len() - c.pos, 9int,
{
    parse_cond_loop(c, None)
}

/// Parse one factor.
fn parse_factor(c: &mut Cursor) -> (r: Result<Expression, ParseError>)
    requires
        old(c).wf(),
    ensures
        cursor_frame(*old(c), *final(c)),
        match r {
            Ok(e) => spec_parse_factor(old(c).toks(), old(c).pos as int) == Ok::<
                (ExprV, int),
                ErrorV,
            >((e@, final(c).pos as int)) && old(c).pos < final(c).pos,
            Err(err) => spec_parse_factor(old(c).toks(), old(c).pos as int) == Err::<
                (ExprV, int),
                ErrorV,
            >(err@),
        },
    decreases c.toks().len() - c.pos, 1int,
{
    match c.peek() {
        None => Err(ParseError::IncorrectExpression),
        Some(t) => match t {
            Token::Identifier(s) => {
                let e = Expression::Value(Value::Identifier(s.clone()));
                c.advance();
                Ok(e)
            },
            Token::Number(s) => {
                let e = Expression::Value(Value::Number(s.clone()));
                c.advance();
                Ok(e)
            },
            Token::Variable(s) => {
                let e = Expression::Value(Value::Variable(s.clone()));
                c.advance();
                Ok(e)
            },
            Token::Function(_) => parse_function_call(c),
            Token::Symbol(sym) => {
                let s0 = *sym;
                if s0 == Symbol::LeftParen {
                    c.advance();
                    let e = match parse_expression(c) {
                        Ok(e) => e,
                        Err(err) => {
                            return Err(err);
                        },
                    };
                    match c.peek() {
                        Some(Token::Symbol(Symbol::RightParen)) => {
                            c.advance();
                            Ok(e)
                        },
                        _ => Err(ParseError::MissingToken(Token::Symbol(Symbol::RightParen))),
                    }
                } else if s0 == Symbol::Plus || s0 == Symbol::Minus {
                    c.advance();
                    match parse_factor(c) {
                        Ok(x) => Ok(Expression::UnaryOp(s0, Box::new(x))),
                        Err(err) => Err(err),
                    }
                } else {
                    Err(ParseError::UnexpectedToken(t.clone()))
                }
            },
            _ => Err(ParseError::UnexpectedToken(t.clone())),
        },
    }
}

/// Parse one function call, arity check included.
fn parse_function_call(c: &mut Cursor) -> (r: Result<Expression, ParseError>)
    requires
        old(c).wf(),
    ensures
        cursor_frame(*old(c), *final(c)),
        match r {
            Ok(e) => spec_parse_function_call(old(c).toks(), old(c).pos as int) == Ok::<
                (ExprV, int),
                ErrorV,
            >((e@, final(c).pos as int)) && old(c).pos < final(c).pos,
            Err(err) => spec_parse_function_call(old(c).toks(), old(c).pos as int) == Err::<
                (ExprV, int),
                ErrorV,
            >(err@),
        },
    decreases c.toks().len() - c.pos, 0int,
{
    let f = match c.peek() {
        None => {
            return Err(ParseError::MissingFunction);
        },
        Some(Token::Function(f)) => *f,
        Some(t) => {
            return Err(ParseError::UnexpectedToken(t.clone()));
        },
    };
    c.advance();
    match c.peek() {
        None => {
            return Err(ParseError::MissingToken(Token::Symbol(Symbol::LeftParen)));
        },
        Some(Token::Symbol(Symbol::LeftParen)) => {
            c.advance();
        },
        Some(t) => {
            return Err(ParseError::UnexpectedToken(t.clone()));
        },
    }
    let mut args: Vec<Expression> = Vec::new();
    proof {
        assert(args.deep_view() =~= Seq::<ExprV>::empty());
    }
    let r = parse_args(c, &mut args);
    match r {
        Ok(()) => {},
        Err(err) => {
            return Err(err);
        },
    }
    Function::new(f, args)
}

/// Parse the comma-separated argument list of a function call, up to and
/// including its closing parenthesis, appending onto `args`.
fn parse_args(c: &mut Cursor, args: &mut Vec<Expression>) -> (r: Result<(), ParseError>)
    requires
        old(c).wf(),
    ensures
        cursor_frame(*old(c), *final(c)),
        match r {
            Ok(()) => spec_parse_args(old(c).toks(), old(c).pos as int, old(args).deep_view())
                == Ok::<(Seq<ExprV>, int), ErrorV>((final(args).deep_view(), final(c).pos as int))
                && old(c).pos < final(c).pos,
            Err(err) => spec_parse_args(old(c).toks(), old(c).pos as int, old(args).deep_view())
                == Err::<(Seq<ExprV>, int), ErrorV>(err@),
        },
    decreases c.toks().len() - c.pos, 4int,
{
    match c.peek() {
        None => {
            return Err(ParseError::IncorrectExpression);
        },
        Some(Token::Symbol(Symbol::RightParen)) => {
            c.advance();
            return Ok(());
        },
        Some(_) => {},
    }
    let e = match parse_expression(c) {
        Ok(e) => e,
        Err(err) => {
            return Err(err);
        },
    };
    let ghost args_before = args.deep_view();
    let ghost ev = e@;
    args.push(e);
    proof {
        assert(args.deep_view() =~= args_before.push(ev));
    }
    match c.peek() {
        Some(Token::Symbol(Symbol::Comma)) => {
            c.advance();
            parse_args(c, args)
        },
        _ => parse_args(c, args),
    }
}

/// Parse one term: factors folded under `*` and `/`.
fn parse_next_term(c: &mut Cursor) -> (r: Result<Expression, ParseError>)
    requires
        old(c).wf(),
    ensures
        cursor_frame(*old(c), *final(c)),
        match r {
            Ok(e) => spec_parse_next_term(old(c).toks(), old(c).pos as int) == Ok::<
                (ExprV, int),
                ErrorV,
            >((e@, final(c).pos as int)) && old(c).pos < final(c).pos,
            Err(err) => spec_parse_next_term(old(c).toks(), old(c).pos as int) == Err::<
                (ExprV, int),
                ErrorV,
            >(err@),
        },
    decreases c.toks().len() - c.pos, 2int,
{
    let left = match parse_factor(c) {
        Ok(e) => e,
        Err(err) => {
            return Err(err);
        },
    };
    parse_term_rest(c, left)
}

/// Fold the tail of a term onto `left`.
fn parse_term_rest(c: &mut Cursor, left: Expression) -> (r: Result<Expression, ParseError>)
    requires
        old(c).wf(),
    ensures
        cursor_frame(*old(c), *final(c)),
        match r {
            Ok(e) => spec_parse_term_rest(old(c).toks(), old(c).pos as int, left@) == Ok::<
                (ExprV, int),
                ErrorV,
            >((e@, final(c).pos as int)),
            Err(err) => spec_parse_term_rest(old(c).toks(), old(c).pos as int, left@) == Err::<
                (ExprV, int),
                ErrorV,
            >(err@),
        },
    decreases c.toks().len() - c.pos, 2int,
{
    let op = match c.peek() {
        Some(Token::Symbol(Symbol::Asterisk)) => Symbol::Asterisk,
        Some(Token::Symbol(Symbol::Slash)) => Symbol::Slash,
        _ => {
            return Ok(left);
        },
    };
    c.advance();
    let right = match parse_factor(c) {
        Ok(e) => e,
        Err(err) => {
            return Err(err);
        },
    };
    parse_term_rest(c, Expression::BinaryOp(op, Box::new(left), Box::new(right)))
}

/// Parse one arithmetic expression: terms folded under `+` and `-`.
pub fn parse_expression(c: &mut Cursor) -> (r: Result<Expression, ParseError>)
    requires
        old(c).wf(),
    ensures
        cursor_frame(*old(c), *final(c)),
        match r {
            Ok(e) => spec_parse_expression(old(c).toks(), old(c).pos as int) == Ok::<
                (ExprV, int),
                ErrorV,
            >((e@, final(c).pos as int)) && old(c).pos < final(c).pos,
            Err(err) => spec_parse_expression(old(c).toks(), old(c).pos as int) == Err::<
                (ExprV, int),
                ErrorV,
            >(err@),
        },
    decreases c.toks().len() - c.pos, 3int,
{
    let left = match parse_next_term(c) {
        Ok(e) => e,
        Err(err) => {
            return Err(err);
        },
    };
    parse_expression_rest(c, left)
}

/// Fold the tail of an expression onto `left`.
fn parse_expression_rest(c: &mut Cursor, left: Expression) -> (r: Result<Expression, ParseError>)
    requires
        old(c).wf(),
    ensures
        cursor_frame(*old(c), *final(c)),
        match r {
            Ok(e) => spec_parse_expression_rest(old(c).toks(), old(c).pos as int, left@) == Ok::<
                (ExprV, int),
                ErrorV,
            >((e@, final(c).pos as int)),
            Err(err) => spec_parse_expression_rest(old(c).toks(), old(c).pos as int, left@)
                == Err::<(ExprV, int), ErrorV>(err@),
        },
    decreases c.toks().len() - c.pos, 3int,
{
    let op = match c.peek() {
        Some(Token::Symbol(Symbol::Plus)) => Symbol::Plus,
        Some(Token::Symbol(Symbol::Minus)) => Symbol::Minus,
        _ => {
            return Ok(left);
        },
    };
    c.advance();
    let right = match parse_next_term(c) {
        Ok(e) => e,
        Err(err) => {
            return Err(err);
        },
    };
    parse_expression_rest(c, Expression::BinaryOp(op, Box::new(left), Box::new(right)))
}

} // verus!
