//! The clause parsers of a `SELECT` statement: projection, table list,
//! `WHERE`, `GROUP BY`, `HAVING` and `ORDER BY`, and the table name of an
//! `INSERT`. Each is pinned to a mathematical twin over token views.

use vstd::prelude::*;
use crate::ast::{Expression, ExprV, Value, ValueV};
use crate::cursor::{Cursor, cursor_frame};
use crate::error::{ParseError, ErrorV};
use crate::expression_parser::{
    parse_expression, spec_parse_expression, parse_condition, spec_parse_condition, opt_cond_view,
};
use crate::keyword::Keyword;
use crate::structs::{AliasedExpr, Condition, CondV, Projection, ProjectionV, Sort};
use crate::symbol::Symbol;
use crate::token::{Token, TokenV};

verus! {

/// The grammar of an optional `WHERE` clause: absent unless the next token
/// is `WHERE`; present, it is the condition after the keyword.
pub open spec fn spec_parse_where(toks: Seq<TokenV>, pos: int) -> Result<
    (Option<CondV>, int),
    ErrorV,
> {
    if 0 <= pos < toks.len() && toks[pos] == TokenV::Keyword(Keyword::Where) {
        match spec_parse_condition(toks, pos + 1) {
            Err(e) => Err(e),
            Ok((cond, p)) => Ok((Some(cond), p)),
        }
    } else {
        Ok((None, pos))
    }
}

/// The grammar of an optional `HAVING` clause, like `WHERE`.
pub open spec fn spec_parse_having(toks: Seq<TokenV>, pos: int) -> Result<
    (Option<CondV>, int),
    ErrorV,
> {
    if 0 <= pos < toks.len() && toks[pos] == TokenV::Keyword(Keyword::Having) {
        match spec_parse_condition(toks, pos + 1) {
            Err(e) => Err(e),
            Ok((cond, p)) => Ok((Some(cond), p)),
        }
    } else {
        Ok((None, pos))
    }
}

/// Whether the token at `pos` stops a comma-separated item list: the end
/// of input, a statement terminator, or a clause-opening keyword.
pub open spec fn spec_stops_items(toks: Seq<TokenV>, pos: int) -> bool {
    if pos < 0 || pos >= toks.len() {
        true
    } else if toks[pos].is_terminator() {
        true
    } else {
        match toks[pos] {
            TokenV::Keyword(k) => k.spec_is_clause(),
            _ => false,
        }
    }
}

/// The grammar of a comma-separated list of `expr [AS expr]` entries,
/// stopped by [`spec_stops_items`].
pub open spec fn spec_parse_items(
    toks: Seq<TokenV>,
    pos: int,
    acc: Seq<(ExprV, Option<ExprV>)>,
) -> Result<(Seq<(ExprV, Option<ExprV>)>, int), ErrorV>
    decreases toks.len() - pos, 0int,
{
    if spec_stops_items(toks, pos) {
        Ok((acc, pos))
    } else {
        match spec_parse_expression(toks, pos) {
            Err(e) => Err(e),
            Ok((e, p)) => if pos < p <= toks.len() {
                if p < toks.len() && toks[p] == TokenV::Keyword(Keyword::As) {
                    match spec_parse_expression(toks, p + 1) {
                        Err(err) => Err(err),
                        Ok((a, p2)) => if p < p2 <= toks.len() {
                            spec_parse_items_comma(toks, p2, acc.push((e, Some(a))))
                        } else {
                            Err(ErrorV::IncorrectExpression)
                        },
                    }
                } else {
                    spec_parse_items_comma(toks, p, acc.push((e, None)))
                }
            } else {
                Err(ErrorV::IncorrectExpression)
            },
        }
    }
}

/// After one list entry: consume a separating comma if one follows, then
/// continue the list.
pub open spec fn spec_parse_items_comma(
    toks: Seq<TokenV>,
    pos: int,
    acc: Seq<(ExprV, Option<ExprV>)>,
) -> Result<(Seq<(ExprV, Option<ExprV>)>, int), ErrorV>
    decreases toks.len() - pos, 1int,
{
    if 0 <= pos < toks.len() && toks[pos] == TokenV::Symbol(Symbol::Comma) {
        spec_parse_items(toks, pos + 1, acc)
    } else {
        spec_parse_items(toks, pos, acc)
    }
}

/// The grammar of a projection: `*` is the wildcard; otherwise a
/// comma-separated list of expressions with optional aliases.
pub open spec fn spec_parse_projection(toks: Seq<TokenV>, pos: int) -> Result<
    (ProjectionV, int),
    ErrorV,
> {
    if 0 <= pos < toks.len() && toks[pos] == TokenV::Symbol(Symbol::Asterisk) {
        Ok((ProjectionV::AllColumns, pos + 1))
    } else {
        match spec_parse_items(toks, pos, Seq::empty()) {
            Err(e) => Err(e),
            Ok((items, p)) => Ok((ProjectionV::Columns(items), p)),
        }
    }
}

/// The grammar of a table list: `FROM`, then a non-empty list of
/// expressions with optional aliases.
pub open spec fn spec_parse_tables(toks: Seq<TokenV>, pos: int) -> Result<
    (Seq<(ExprV, Option<ExprV>)>, int),
    ErrorV,
> {
    if 0 <= pos < toks.len() && toks[pos] == TokenV::Keyword(Keyword::From) {
        match spec_parse_items(toks, pos + 1, Seq::empty()) {
            Err(e) => Err(e),
            Ok((items, p)) => if items.len() == 0 {
                Err(ErrorV::MissingTable)
            } else {
                Ok((items, p))
            },
        }
    } else {
        Err(ErrorV::MissingToken(TokenV::Keyword(Keyword::From)))
    }
}

/// The grammar of a `GROUP BY` column list: identifiers separated by
/// commas, ended by `HAVING`, a terminator, or the end of input; `*`
/// yields the wildcard.
pub open spec fn spec_groupby_cols(
    toks: Seq<TokenV>,
    pos: int,
    acc: Seq<(ExprV, Option<ExprV>)>,
) -> Result<(ProjectionV, int), ErrorV>
    decreases toks.len() - pos,
{
    if pos < 0 || pos >= toks.len() {
        Ok((ProjectionV::Columns(acc), pos))
    } else {
        match toks[pos] {
            TokenV::Identifier(s) => spec_groupby_cols(
                toks,
                pos + 1,
                acc.push((ExprV::Value(ValueV::Identifier(s)), None)),
            ),
            TokenV::Symbol(Symbol::Asterisk) => Ok((ProjectionV::AllColumns, pos + 1)),
            TokenV::Symbol(Symbol::Comma) => spec_groupby_cols(toks, pos + 1, acc),
            TokenV::Keyword(Keyword::Having) => Ok((ProjectionV::Columns(acc), pos)),
            TokenV::Symbol(Symbol::Semicolon) | TokenV::Symbol(Symbol::Slash) => Ok(
                (ProjectionV::Columns(acc), pos),
            ),
            t => Err(ErrorV::UnexpectedToken(t)),
        }
    }
}

/// The grammar of an optional `GROUP BY` clause: absent, it defaults to
/// the wildcard.
pub open spec fn spec_parse_groupby(toks: Seq<TokenV>, pos: int) -> Result<
    (ProjectionV, int),
    ErrorV,
> {
    if 0 <= pos < toks.len() && toks[pos] == TokenV::Keyword(Keyword::GroupBy) {
        spec_groupby_cols(toks, pos + 1, Seq::empty())
    } else {
        Ok((ProjectionV::AllColumns, pos))
    }
}

/// The grammar of an `ORDER BY` entry list: each column name must carry
/// `ASC` or `DESC`, and a column with no following sort keyword is missing
/// its sort; entries are separated by commas and the list ends before a
/// terminator. Input that ends where a column is expected is missing a
/// column.
pub open spec fn spec_orderby_cols(
    toks: Seq<TokenV>,
    pos: int,
    acc: Seq<(Seq<char>, Sort)>,
) -> Result<(Seq<(Seq<char>, Sort)>, int), ErrorV>
    decreases toks.len() - pos,
{
    if pos < 0 || pos >= toks.len() {
        Err(ErrorV::MissingColumn)
    } else {
        match toks[pos] {
            TokenV::Identifier(name) => if pos + 1 >= toks.len() {
                Err(ErrorV::MissingSort)
            } else {
                match toks[pos + 1] {
                    TokenV::Keyword(Keyword::Asc) => spec_orderby_cols(
                        toks,
                        pos + 2,
                        acc.push((name, Sort::Asc)),
                    ),
                    TokenV::Keyword(Keyword::Desc) => spec_orderby_cols(
                        toks,
                        pos + 2,
                        acc.push((name, Sort::Desc)),
                    ),
                    _ => Err(ErrorV::MissingSort),
                }
            },
            TokenV::Symbol(Symbol::Comma) => spec_orderby_cols(toks, pos + 1, acc),
            TokenV::Symbol(Symbol::Semicolon) | TokenV::Symbol(Symbol::Slash) => Ok((acc, pos)),
            t => Err(ErrorV::UnexpectedToken(t)),
        }
    }
}

/// The grammar of an optional `ORDER BY` clause.
pub open spec fn spec_parse_orderby(toks: Seq<TokenV>, pos: int) -> Result<
    (Option<Seq<(Seq<char>, Sort)>>, int),
    ErrorV,
> {
    if 0 <= pos < toks.len() && toks[pos] == TokenV::Keyword(Keyword::OrderBy) {
        match spec_orderby_cols(toks, pos + 1, Seq::empty()) {
            Err(e) => Err(e),
            Ok((entries, p)) => Ok((Some(entries), p)),
        }
    } else {
        Ok((None, pos))
    }
}

/// The grammar of a table name: the next token must be an identifier.
pub open spec fn spec_parse_table(toks: Seq<TokenV>, pos: int) -> Result<(Seq<char>, int), ErrorV> {
    if 0 <= pos < toks.len() {
        match toks[pos] {
            TokenV::Identifier(name) => Ok((name, pos + 1)),
            _ => Err(ErrorV::MissingToken(TokenV::Identifier("Table name"@))),
        }
    } else {
        Err(ErrorV::MissingToken(TokenV::Identifier("Table name"@)))
    }
}

/// Parse an optional `WHERE` clause.
pub fn parse_where(c: &mut Cursor) -> (r: Result<Option<Condition>, ParseError>)
    requires
        old(c).wf(),
    ensures
        cursor_frame(*old(c), *final(c)),
        match r {
            Ok(cond) => spec_parse_where(old(c).toks(), old(c).pos as int) == Ok::<
                (Option<CondV>, int),
                ErrorV,
            >((opt_cond_view(cond), final(c).pos as int)),
            Err(err) => spec_parse_where(old(c).toks(), old(c).pos as int) == Err::<
                (Option<CondV>, int),
                ErrorV,
            >(err@),
        },
{
    match c.peek() {
        Some(Token::Keyword(Keyword::Where)) => {},
        _ => {
            return Ok(None);
        },
    }
    c.advance();
    match parse_condition(c) {
        Ok(cond) => Ok(Some(cond)),
        Err(err) => Err(err),
    }
}

/// Parse an optional `HAVING` clause.
pub fn parse_having(c: &mut Cursor) -> (r: Result<Option<Condition>, ParseError>)
    requires
        old(c).wf(),
    ensures
        cursor_frame(*old(c), *final(c)),
        match r {
            Ok(cond) => spec_parse_having(old(c).toks(), old(c).pos as int) == Ok::<
                (Option<CondV>, int),
                ErrorV,
            >((opt_cond_view(cond), final(c).pos as int)),
            Err(err) => spec_parse_having(old(c).toks(), old(c).pos as int) == Err::<
                (Option<CondV>, int),
                ErrorV,
            >(err@),
        },
{
    match c.peek() {
        Some(Token::Keyword(Keyword::Having)) => {},
        _ => {
            return Ok(None);
        },
    }
    c.advance();
    match parse_condition(c) {
        Ok(cond) => Ok(Some(cond)),
        Err(err) => Err(err),
    }
}

/// Whether the next token stops an item list.
fn stops_items(c: &Cursor) -> (r: bool)
    requires
        c.wf(),
    ensures
        r == spec_stops_items(c.toks(), c.pos as int),
{
    match c.peek() {
        None => true,
        Some(t) => {
            if t.is_terminator() {
                true
            } else {
                match t {
                    Token::Keyword(k) => k.is_clause(),
                    _ => false,
                }
            }
        },
    }
}

/// Parse one comma-separated list of `expr [AS expr]` entries onto `acc`.
fn parse_items(c: &mut Cursor, acc: &mut Vec<AliasedExpr>) -> (r: Result<(), ParseError>)
    requires
        old(c).wf(),
    ensures
        cursor_frame(*old(c), *final(c)),
        match r {
            Ok(()) => spec_parse_items(old(c).toks(), old(c).pos as int, old(acc).deep_view())
                == Ok::<(Seq<(ExprV, Option<ExprV>)>, int), ErrorV>(
                (final(acc).deep_view(), final(c).pos as int),
            ),
            Err(err) => spec_parse_items(old(c).toks(), old(c).pos as int, old(acc).deep_view())
                == Err::<(Seq<(ExprV, Option<ExprV>)>, int), ErrorV>(err@),
        },
    decreases c.toks().len() - c.pos,
{
    if stops_items(c) {
        return Ok(());
    }
    let e = match parse_expression(c) {
        Ok(e) => e,
        Err(err) => {
            return Err(err);
        },
    };
    let alias = match c.peek() {
        Some(Token::Keyword(Keyword::As)) => {
            c.advance();
            match parse_expression(c) {
                Ok(a) => Some(a),
                Err(err) => {
                    return Err(err);
                },
            }
        },
        _ => None,
    };
    let ghost acc_before = acc.deep_view();
    let ghost entry_view = (e@, match alias {
        Some(ref a) => Some(a@),
        None => None,
    });
    acc.push((e, alias));
    proof {
        assert(acc.deep_view() =~= acc_before.push(entry_view));
    }
    match c.peek() {
        Some(Token::Symbol(Symbol::Comma)) => {
            c.advance();
            parse_items(c, acc)
        },
        _ => parse_items(c, acc),
    }
}

/// Parse a projection: `*`, or an expression list with optional aliases.
pub fn parse_projection(c: &mut Cursor) -> (r: Result<Projection, ParseError>)
    requires
        old(c).wf(),
    ensures
        cursor_frame(*old(c), *final(c)),
        match r {
            Ok(p) => spec_parse_projection(old(c).toks(), old(c).pos as int) == Ok::<
                (ProjectionV, int),
                ErrorV,
            >((p@, final(c).pos as int)),
            Err(err) => spec_parse_projection(old(c).toks(), old(c).pos as int) == Err::<
                (ProjectionV, int),
                ErrorV,
            >(err@),
        },
{
    match c.peek() {
        Some(Token::Symbol(Symbol::Asterisk)) => {
            c.advance();
            return Ok(Projection::AllColumns);
        },
        _ => {},
    }
    let mut items: Vec<AliasedExpr> = Vec::new();
    proof {
        assert(items.deep_view() =~= Seq::<(ExprV, Option<ExprV>)>::empty());
    }
    match parse_items(c, &mut items) {
        Ok(()) => {
            proof {
                crate::structs::lemma_deep_view_aliased(items);
            }
            Ok(Projection::Columns(items))
        },
        Err(err) => Err(err),
    }
}

/// Parse the table list of a `SELECT`: `FROM`, then at least one entry.
pub fn parse_tables(c: &mut Cursor) -> (r: Result<Vec<AliasedExpr>, ParseError>)
    requires
        old(c).wf(),
    ensures
        cursor_frame(*old(c), *final(c)),
        match r {
            Ok(ts) => spec_parse_tables(old(c).toks(), old(c).pos as int) == Ok::<
                (Seq<(ExprV, Option<ExprV>)>, int),
                ErrorV,
            >((ts.deep_view(), final(c).pos as int)),
            Err(err) => spec_parse_tables(old(c).toks(), old(c).pos as int) == Err::<
                (Seq<(ExprV, Option<ExprV>)>, int),
                ErrorV,
            >(err@),
        },
{
    match c.peek() {
        Some(Token::Keyword(Keyword::From)) => {},
        _ => {
            return Err(ParseError::MissingToken(Token::Keyword(Keyword::From)));
        },
    }
    c.advance();
    let mut items: Vec<AliasedExpr> = Vec::new();
    proof {
        assert(items.deep_view() =~= Seq::<(ExprV, Option<ExprV>)>::empty());
    }
    match parse_items(c, &mut items) {
        Ok(()) => {
            if items.len() == 0 {
                proof {
                    assert(items.deep_view().len() == items@.len());
                }
                Err(ParseError::MissingTable)
            } else {
                proof {
                    assert(items.deep_view().len() == items@.len());
                }
                Ok(items)
            }
        },
        Err(err) => Err(err),
    }
}

/// Parse an optional `GROUP BY` clause; absent, the grouping is the
/// wildcard.
pub fn parse_groupby(c: &mut Cursor) -> (r: Result<Projection, ParseError>)
    requires
        old(c).wf(),
    ensures
        cursor_frame(*old(c), *final(c)),
        match r {
            Ok(p) => spec_parse_groupby(old(c).toks(), old(c).pos as int) == Ok::<
                (ProjectionV, int),
                ErrorV,
            >((p@, final(c).pos as int)),
            Err(err) => spec_parse_groupby(old(c).toks(), old(c).pos as int) == Err::<
                (ProjectionV, int),
                ErrorV,
            >(err@),
        },
{
    match c.peek() {
        Some(Token::Keyword(Keyword::GroupBy)) => {},
        _ => {
            return Ok(Projection::AllColumns);
        },
    }
    c.advance();
    let mut cols: Vec<AliasedExpr> = Vec::new();
    proof {
        assert(cols.deep_view() =~= Seq::<(ExprV, Option<ExprV>)>::empty());
    }
    parse_groupby_cols(c, &mut cols)
}

/// Parse the column list of a `GROUP BY` onto `acc`.
fn parse_groupby_cols(c: &mut Cursor, acc: &mut Vec<AliasedExpr>) -> (r: Result<
    Projection,
    ParseError,
>)
    requires
        old(c).wf(),
    ensures
        cursor_frame(*old(c), *final(c)),
        match r {
            Ok(p) => spec_groupby_cols(old(c).toks(), old(c).pos as int, old(acc).deep_view())
                == Ok::<(ProjectionV, int), ErrorV>((p@, final(c).pos as int)),
            Err(err) => spec_groupby_cols(old(c).toks(), old(c).pos as int, old(acc).deep_view())
                == Err::<(ProjectionV, int), ErrorV>(err@),
        },
    decreases c.toks().len() - c.pos,
{
    let t = match c.peek() {
        None => {
            proof {
                crate::structs::lemma_deep_view_aliased(*acc);
            }
            return Ok(Projection::Columns(take_items(acc)));
        },
        Some(t) => t,
    };
    match t {
        Token::Identifier(s) => {
            let ghost acc_before = acc.deep_view();
            let e = Expression::Value(Value::Identifier(s.clone()));
            let ghost ev = e@;
            acc.push((e, None));
            proof {
                assert(acc.deep_view() =~= acc_before.push((ev, None::<ExprV>)));
            }
            c.advance();
            parse_groupby_cols(c, acc)
        },
        Token::Symbol(Symbol::Asterisk) => {
            c.advance();
            Ok(Projection::AllColumns)
        },
        Token::Symbol(Symbol::Comma) => {
            c.advance();
            parse_groupby_cols(c, acc)
        },
        Token::Keyword(Keyword::Having) | Token::Symbol(Symbol::Semicolon) | Token::Symbol(
            Symbol::Slash,
        ) => {
            proof {
                crate::structs::lemma_deep_view_aliased(*acc);
            }
            Ok(Projection::Columns(take_items(acc)))
        },
        _ => Err(ParseError::UnexpectedToken(t.clone())),
    }
}

/// Move the accumulated items out of the accumulator.
fn take_items(acc: &mut Vec<AliasedExpr>) -> (r: Vec<AliasedExpr>)
    ensures
        r == *old(acc),
{
    let mut out: Vec<AliasedExpr> = Vec::new();
    core::mem::swap(&mut out, acc);
    out
}

/// Parse an optional `ORDER BY` clause.
pub fn parse_orderby(c: &mut Cursor) -> (r: Result<Option<Vec<(String, Sort)>>, ParseError>)
    requires
        old(c).wf(),
    ensures
        cursor_frame(*old(c), *final(c)),
        match r {
            Ok(entries) => spec_parse_orderby(old(c).toks(), old(c).pos as int) == Ok::<
                (Option<Seq<(Seq<char>, Sort)>>, int),
                ErrorV,
            >(
                (
                    match entries {
                        Some(es) => Some(es.deep_view()),
                        None => None,
                    },
                    final(c).pos as int,
                ),
            ),
            Err(err) => spec_parse_orderby(old(c).toks(), old(c).pos as int) == Err::<
                (Option<Seq<(Seq<char>, Sort)>>, int),
                ErrorV,
            >(err@),
        },
{
    match c.peek() {
        Some(Token::Keyword(Keyword::OrderBy)) => {},
        _ => {
            return Ok(None);
        },
    }
    c.advance();
    let mut entries: Vec<(String, Sort)> = Vec::new();
    proof {
        assert(entries.deep_view() =~= Seq::<(Seq<char>, Sort)>::empty());
    }
    match parse_orderby_cols(c, &mut entries) {
        Ok(()) => Ok(Some(entries)),
        Err(err) => Err(err),
    }
}

/// Parse the entry list of an `ORDER BY` onto `acc`.
fn parse_orderby_cols(c: &mut Cursor, acc: &mut Vec<(String, Sort)>) -> (r: Result<
    (),
    ParseError,
>)
    requires
        old(c).wf(),
    ensures
        cursor_frame(*old(c), *final(c)),
        match r {
            Ok(()) => spec_orderby_cols(old(c).toks(), old(c).pos as int, old(acc).deep_view())
                == Ok::<(Seq<(Seq<char>, Sort)>, int), ErrorV>(
                (final(acc).deep_view(), final(c).pos as int),
            ),
            Err(err) => spec_orderby_cols(old(c).toks(), old(c).pos as int, old(acc).deep_view())
                == Err::<(Seq<(Seq<char>, Sort)>, int), ErrorV>(err@),
        },
    decreases c.toks().len() - c.pos,
{
    let t = match c.peek() {
        None => {
            return Err(ParseError::MissingColumn);
        },
        Some(t) => t,
    };
    match t {
        Token::Identifier(name) => {
            let column = name.clone();
            c.advance();
            let sort = match c.peek() {
                None => {
                    return Err(ParseError::MissingSort);
                },
                Some(Token::Keyword(Keyword::Asc)) => Sort::Asc,
                Some(Token::Keyword(Keyword::Desc)) => Sort::Desc,
                Some(_) => {
                    return Err(ParseError::MissingSort);
                },
            };
            c.advance();
            let ghost acc_before = acc.deep_view();
            let ghost col_view = column@;
            acc.push((column, sort));
            proof {
                assert(acc.deep_view() =~= acc_before.push((col_view, sort)));
            }
            parse_orderby_cols(c, acc)
        },
        Token::Symbol(Symbol::Comma) => {
            c.advance();
            parse_orderby_cols(c, acc)
        },
        Token::Symbol(Symbol::Semicolon) | Token::Symbol(Symbol::Slash) => Ok(()),
        _ => Err(ParseError::UnexpectedToken(t.clone())),
    }
}

/// Parse a table name: the next token must be an identifier. The token is
/// consumed either way; only the end of input leaves the cursor in place.
pub fn parse_table(c: &mut Cursor) -> (r: Result<String, ParseError>)
    requires
        old(c).wf(),
    ensures
        cursor_frame(*old(c), *final(c)),
        match r {
            Ok(name) => spec_parse_table(old(c).toks(), old(c).pos as int) == Ok::<
                (Seq<char>, int),
                ErrorV,
            >((name@, final(c).pos as int)),
            Err(err) => spec_parse_table(old(c).toks(), old(c).pos as int) == Err::<
                (Seq<char>, int),
                ErrorV,
            >(err@) && final(c).pos as int == if old(c).pos < old(c).toks().len() {
                old(c).pos + 1int
            } else {
                old(c).pos as int
            },
        },
{
    match c.next() {
        Some(Token::Identifier(name)) => Ok(name.clone()),
        _ => Err(ParseError::MissingToken(Token::Identifier("Table name".to_owned()))),
    }
}

} // verus!
