//! The statement parsers: top-level entry points that assemble one full
//! statement from a lexed token sequence, in fixed grammar order, and
//! require the statement terminator where the grammar does.

use vstd::prelude::*;
use crate::cursor::Cursor;
use crate::error::{ParseError, ErrorV};
use crate::clause_parser::{
    parse_where, spec_parse_where, parse_having, spec_parse_having, parse_projection,
    spec_parse_projection, parse_groupby, spec_parse_groupby, parse_orderby, spec_parse_orderby,
    parse_tables, spec_parse_tables, parse_table, spec_parse_table,
};
use crate::keyword::Keyword;
use crate::structs::{
    Statement, StatementV, Sort, lemma_deep_view_aliased, lemma_deep_view_order_by,
    lemma_deep_view_column_values, order_by_view, column_values_view, aliased_list_view,
};
use crate::symbol::Symbol;
use crate::token::{Token, TokenV};

verus! {

/// The optional `DISTINCT` or `ALL` after `SELECT`: `ALL` is the default.
pub open spec fn spec_parse_distinct(toks: Seq<TokenV>, pos: int) -> (bool, int) {
    if 0 <= pos < toks.len() && toks[pos] == TokenV::Keyword(Keyword::Distinct) {
        (true, pos + 1)
    } else if 0 <= pos < toks.len() && toks[pos] == TokenV::Keyword(Keyword::All) {
        (false, pos + 1)
    } else {
        (false, pos)
    }
}

/// The grammar of a whole `SELECT` statement: the keyword, the optional
/// `DISTINCT`/`ALL`, then projection, table list, `WHERE`, `GROUP BY`,
/// `HAVING` and `ORDER BY` in that order, then a required terminator.
/// Tokens after the terminator are not examined.
pub open spec fn spec_parse_select(toks: Seq<TokenV>) -> Result<StatementV, ErrorV> {
    if toks.len() == 0 {
        Err(ErrorV::MissingToken(TokenV::Keyword(Keyword::Select)))
    } else if toks[0] != TokenV::Keyword(Keyword::Select) {
        Err(ErrorV::UnexpectedToken(toks[0]))
    } else {
        let (distinct, p1) = spec_parse_distinct(toks, 1);
        match spec_parse_projection(toks, p1) {
            Err(e) => Err(e),
            Ok((projections, p2)) => match spec_parse_tables(toks, p2) {
                Err(e) => Err(e),
                Ok((tables, p3)) => match spec_parse_where(toks, p3) {
                    Err(e) => Err(e),
                    Ok((filter, p4)) => match spec_parse_groupby(toks, p4) {
                        Err(e) => Err(e),
                        Ok((group_by, p5)) => match spec_parse_having(toks, p5) {
                            Err(e) => Err(e),
                            Ok((having, p6)) => match spec_parse_orderby(toks, p6) {
                                Err(e) => Err(e),
                                Ok((order_by, p7)) => if p7 >= toks.len() {
                                    Err(ErrorV::MissingTerminator)
                                } else if toks[p7].is_terminator() {
                                    Ok(
                                        StatementV::Select {
                                            distinct,
                                            projections,
                                            tables,
                                            filter,
                                            group_by,
                                            having,
                                            order_by,
                                        },
                                    )
                                } else {
                                    Err(ErrorV::UnexpectedToken(toks[p7]))
                                },
                            },
                        },
                    },
                },
            },
        }
    }
}

/// The column list of an `INSERT`: identifiers separated by commas, ended
/// by the closing parenthesis, which is consumed.
pub open spec fn spec_insert_cols(toks: Seq<TokenV>, pos: int, acc: Seq<Seq<char>>) -> Result<
    (Seq<Seq<char>>, int),
    ErrorV,
>
    decreases toks.len() - pos,
{
    if pos < 0 || pos >= toks.len() {
        Err(ErrorV::MissingToken(TokenV::Symbol(Symbol::RightParen)))
    } else {
        match toks[pos] {
            TokenV::Identifier(s) => spec_insert_cols(toks, pos + 1, acc.push(s)),
            TokenV::Symbol(Symbol::Comma) => spec_insert_cols(toks, pos + 1, acc),
            TokenV::Symbol(Symbol::RightParen) => Ok((acc, pos + 1)),
            t => Err(ErrorV::UnexpectedToken(t)),
        }
    }
}

/// The value list of an `INSERT`: identifiers and numbers separated by
/// commas, ended by the closing parenthesis, which is consumed.
pub open spec fn spec_insert_vals(toks: Seq<TokenV>, pos: int, acc: Seq<Seq<char>>) -> Result<
    (Seq<Seq<char>>, int),
    ErrorV,
>
    decreases toks.len() - pos,
{
    if pos < 0 || pos >= toks.len() {
        Err(ErrorV::MissingToken(TokenV::Symbol(Symbol::RightParen)))
    } else {
        match toks[pos] {
            TokenV::Identifier(s) => spec_insert_vals(toks, pos + 1, acc.push(s)),
            TokenV::Number(s) => spec_insert_vals(toks, pos + 1, acc.push(s)),
            TokenV::Symbol(Symbol::Comma) => spec_insert_vals(toks, pos + 1, acc),
            TokenV::Symbol(Symbol::RightParen) => Ok((acc, pos + 1)),
            t => Err(ErrorV::UnexpectedToken(t)),
        }
    }
}

/// Pair each value with its column name positionally, or with no name
/// where no column list was given.
pub open spec fn spec_pair_columns(cols: Option<Seq<Seq<char>>>, vals: Seq<Seq<char>>) -> Seq<
    (Option<Seq<char>>, Seq<char>),
> {
    Seq::new(
        vals.len(),
        |i: int|
            (
                match cols {
                    Some(cs) => Some(cs[i]),
                    None => None,
                },
                vals[i],
            ),
    )
}

/// The grammar of a whole `INSERT` statement: `INSERT INTO`, the table
/// name, an optional parenthesized column list, `VALUES` and a
/// parenthesized non-empty value list. A column list must match the value
/// list in length; the pairs are positional. A terminator may follow; any
/// other trailing token is an error, and tokens after the terminator are
/// not examined.
pub open spec fn spec_parse_insert(toks: Seq<TokenV>) -> Result<StatementV, ErrorV> {
    if toks.len() == 0 {
        Err(ErrorV::MissingToken(TokenV::Keyword(Keyword::Insert)))
    } else if toks[0] != TokenV::Keyword(Keyword::Insert) {
        Err(ErrorV::UnexpectedToken(toks[0]))
    } else if toks.len() <= 1 {
        Err(ErrorV::MissingToken(TokenV::Keyword(Keyword::Into)))
    } else if toks[1] != TokenV::Keyword(Keyword::Into) {
        Err(ErrorV::UnexpectedToken(toks[1]))
    } else {
        match spec_parse_table(toks, 2) {
            Err(e) => Err(e),
            Ok((table, p3)) => {
                let cols_step: Result<(Option<Seq<Seq<char>>>, int), ErrorV> = if 0 <= p3
                    < toks.len() && toks[p3] == TokenV::Symbol(Symbol::LeftParen) {
                    match spec_insert_cols(toks, p3 + 1, Seq::empty()) {
                        Err(e) => Err(e),
                        Ok((cols, p)) => Ok((Some(cols), p)),
                    }
                } else {
                    Ok((None, p3))
                };
                match cols_step {
                    Err(e) => Err(e),
                    Ok((cols, p4)) => if p4 >= toks.len() {
                        Err(ErrorV::MissingToken(TokenV::Keyword(Keyword::Values)))
                    } else if toks[p4] != TokenV::Keyword(Keyword::Values) {
                        Err(ErrorV::UnexpectedToken(toks[p4]))
                    } else if p4 + 1 >= toks.len() {
                        Err(ErrorV::MissingToken(TokenV::Symbol(Symbol::LeftParen)))
                    } else if toks[p4 + 1] != TokenV::Symbol(Symbol::LeftParen) {
                        Err(ErrorV::UnexpectedToken(toks[p4 + 1]))
                    } else {
                        match spec_insert_vals(toks, p4 + 2, Seq::empty()) {
                            Err(e) => Err(e),
                            Ok((vals, p5)) => if vals.len() == 0 {
                                Err(ErrorV::MissingValue)
                            } else if cols is Some && cols.unwrap().len() != vals.len() {
                                Err(ErrorV::IncorrectValueCount(cols.unwrap().len() as int))
                            } else if p5 < toks.len() && !toks[p5].is_terminator() {
                                Err(ErrorV::UnexpectedToken(toks[p5]))
                            } else {
                                Ok(
                                    StatementV::Insert {
                                        table,
                                        column_value_pairs: spec_pair_columns(cols, vals),
                                    },
                                )
                            },
                        }
                    },
                }
            },
        }
    }
}

/// Parse one `SELECT` statement from a lexed token sequence.
pub fn parse_select(t: &Vec<Token>) -> (r: Result<Statement, ParseError>)
    ensures
        match r {
            Ok(stmt) => spec_parse_select(t.deep_view()) == Ok::<StatementV, ErrorV>(stmt@),
            Err(err) => spec_parse_select(t.deep_view()) == Err::<StatementV, ErrorV>(err@),
        },
{
    let mut c = Cursor::new(t);
    match c.peek() {
        None => {
            return Err(ParseError::MissingToken(Token::Keyword(Keyword::Select)));
        },
        Some(Token::Keyword(Keyword::Select)) => {
            c.advance();
        },
        Some(tok) => {
            return Err(ParseError::UnexpectedToken(tok.clone()));
        },
    }
    let distinct = match c.peek() {
        Some(Token::Keyword(Keyword::Distinct)) => {
            c.advance();
            true
        },
        Some(Token::Keyword(Keyword::All)) => {
            c.advance();
            false
        },
        _ => false,
    };
    let projections = match parse_projection(&mut c) {
        Ok(p) => p,
        Err(err) => {
            return Err(err);
        },
    };
    let tables = match parse_tables(&mut c) {
        Ok(ts) => ts,
        Err(err) => {
            return Err(err);
        },
    };
    let filter = match parse_where(&mut c) {
        Ok(f) => f,
        Err(err) => {
            return Err(err);
        },
    };
    let group_by = match parse_groupby(&mut c) {
        Ok(g) => g,
        Err(err) => {
            return Err(err);
        },
    };
    let having = match parse_having(&mut c) {
        Ok(h) => h,
        Err(err) => {
            return Err(err);
        },
    };
    let order_by = match parse_orderby(&mut c) {
        Ok(o) => o,
        Err(err) => {
            return Err(err);
        },
    };
    match c.peek() {
        None => Err(ParseError::MissingTerminator),
        Some(tok) => {
            if tok.is_terminator() {
                proof {
                    lemma_deep_view_aliased(tables);
                    if order_by is Some {
                        lemma_deep_view_order_by(order_by.unwrap());
                    }
                }
                Ok(
                    Statement::Select {
                        distinct,
                        projections,
                        tables,
                        filter,
                        group_by,
                        having,
                        order_by,
                    },
                )
            } else {
                Err(ParseError::UnexpectedToken(tok.clone()))
            }
        },
    }
}

/// Parse the parenthesized column list of an `INSERT` onto `acc`, the
/// opening parenthesis already consumed.
fn parse_insert_cols(c: &mut Cursor, acc: &mut Vec<String>) -> (r: Result<(), ParseError>)
    requires
        old(c).wf(),
    ensures
        crate::cursor::cursor_frame(*old(c), *final(c)),
        match r {
            Ok(()) => spec_insert_cols(old(c).toks(), old(c).pos as int, old(acc).deep_view())
                == Ok::<(Seq<Seq<char>>, int), ErrorV>(
                (final(acc).deep_view(), final(c).pos as int),
            ),
            Err(err) => spec_insert_cols(old(c).toks(), old(c).pos as int, old(acc).deep_view())
                == Err::<(Seq<Seq<char>>, int), ErrorV>(err@),
        },
    decreases c.toks().len() - c.pos,
{
    let t = match c.peek() {
        None => {
            return Err(ParseError::MissingToken(Token::Symbol(Symbol::RightParen)));
        },
        Some(t) => t,
    };
    match t {
        Token::Identifier(s) => {
            let ghost acc_before = acc.deep_view();
            let name = s.clone();
            let ghost nv = name@;
            acc.push(name);
            proof {
                assert(acc.deep_view() =~= acc_before.push(nv));
            }
            c.advance();
            parse_insert_cols(c, acc)
        },
        Token::Symbol(Symbol::Comma) => {
            c.advance();
            parse_insert_cols(c, acc)
        },
        Token::Symbol(Symbol::RightParen) => {
            c.advance();
            Ok(())
        },
        _ => Err(ParseError::UnexpectedToken(t.clone())),
    }
}

/// Parse the parenthesized value list of an `INSERT` onto `acc`, the
/// opening parenthesis already consumed.
fn parse_insert_vals(c: &mut Cursor, acc: &mut Vec<String>) -> (r: Result<(), ParseError>)
    requires
        old(c).wf(),
    ensures
        crate::cursor::cursor_frame(*old(c), *final(c)),
        match r {
            Ok(()) => spec_insert_vals(old(c).toks(), old(c).pos as int, old(acc).deep_view())
                == Ok::<(Seq<Seq<char>>, int), ErrorV>(
                (final(acc).deep_view(), final(c).pos as int),
            ),
            Err(err) => spec_insert_vals(old(c).toks(), old(c).pos as int, old(acc).deep_view())
                == Err::<(Seq<Seq<char>>, int), ErrorV>(err@),
        },
    decreases c.toks().len() - c.pos,
{
    let t = match c.peek() {
        None => {
            return Err(ParseError::MissingToken(Token::Symbol(Symbol::RightParen)));
        },
        Some(t) => t,
    };
    match t {
        Token::Identifier(s) => {
            let ghost acc_before = acc.deep_view();
            let val = s.clone();
            let ghost vv = val@;
            acc.push(val);
            proof {
                assert(acc.deep_view() =~= acc_before.push(vv));
            }
            c.advance();
            parse_insert_vals(c, acc)
        },
        Token::Number(s) => {
            let ghost acc_before = acc.deep_view();
            let val = s.clone();
            let ghost vv = val@;
            acc.push(val);
            proof {
                assert(acc.deep_view() =~= acc_before.push(vv));
            }
            c.advance();
            parse_insert_vals(c, acc)
        },
        Token::Symbol(Symbol::Comma) => {
            c.advance();
            parse_insert_vals(c, acc)
        },
        Token::Symbol(Symbol::RightParen) => {
            c.advance();
            Ok(())
        },
        _ => Err(ParseError::UnexpectedToken(t.clone())),
    }
}

/// Parse one `INSERT` statement from a lexed token sequence.
pub fn parse_insert(t: &Vec<Token>) -> (r: Result<Statement, ParseError>)
    ensures
        match r {
            Ok(stmt) => spec_parse_insert(t.deep_view()) == Ok::<StatementV, ErrorV>(stmt@),
            Err(err) => spec_parse_insert(t.deep_view()) == Err::<StatementV, ErrorV>(err@),
        },
{
    let mut c = Cursor::new(t);
    match c.peek() {
        None => {
            return Err(ParseError::MissingToken(Token::Keyword(Keyword::Insert)));
        },
        Some(Token::Keyword(Keyword::Insert)) => {
            c.advance();
        },
        Some(tok) => {
            return Err(ParseError::UnexpectedToken(tok.clone()));
        },
    }
    match c.peek() {
        None => {
            return Err(ParseError::MissingToken(Token::Keyword(Keyword::Into)));
        },
        Some(Token::Keyword(Keyword::Into)) => {
            c.advance();
        },
        Some(tok) => {
            return Err(ParseError::UnexpectedToken(tok.clone()));
        },
    }
    let table = match parse_table(&mut c) {
        Ok(name) => name,
        Err(err) => {
            return Err(err);
        },
    };
    let mut cols: Vec<String> = Vec::new();
    proof {
        assert(cols.deep_view() =~= Seq::<Seq<char>>::empty());
    }
    let has_cols = match c.peek() {
        Some(Token::Symbol(Symbol::LeftParen)) => {
            c.advance();
            match parse_insert_cols(&mut c, &mut cols) {
                Ok(()) => {},
                Err(err) => {
                    return Err(err);
                },
            }
            true
        },
        _ => false,
    };
    let ghost cols_view: Option<Seq<Seq<char>>> = if has_cols {
        Some(cols.deep_view())
    } else {
        None
    };
    match c.peek() {
        None => {
            return Err(ParseError::MissingToken(Token::Keyword(Keyword::Values)));
        },
        Some(Token::Keyword(Keyword::Values)) => {
            c.advance();
        },
        Some(tok) => {
            return Err(ParseError::UnexpectedToken(tok.clone()));
        },
    }
    match c.peek() {
        None => {
            return Err(ParseError::MissingToken(Token::Symbol(Symbol::LeftParen)));
        },
        Some(Token::Symbol(Symbol::LeftParen)) => {
            c.advance();
        },
        Some(tok) => {
            return Err(ParseError::UnexpectedToken(tok.clone()));
        },
    }
    let mut vals: Vec<String> = Vec::new();
    proof {
        assert(vals.deep_view() =~= Seq::<Seq<char>>::empty());
    }
    match parse_insert_vals(&mut c, &mut vals) {
        Ok(()) => {},
        Err(err) => {
            return Err(err);
        },
    }
    if vals.len() == 0 {
        proof {
            assert(vals.deep_view().len() == vals@.len());
        }
        return Err(ParseError::MissingValue);
    }
    proof {
        assert(vals.deep_view().len() == vals@.len());
        assert(cols.deep_view().len() == cols@.len());
    }
    if has_cols && cols.len() != vals.len() {
        return Err(ParseError::IncorrectValueCount(cols.len()));
    }
    match c.peek() {
        Some(tok) => {
            if !tok.is_terminator() {
                return Err(ParseError::UnexpectedToken(tok.clone()));
            }
        },
        None => {},
    }
    let pairs = pair_columns(has_cols, &cols, &vals);
    proof {
        lemma_deep_view_column_values(pairs);
        assert(pairs.deep_view() =~= spec_pair_columns(cols_view, vals.deep_view()));
    }
    Ok(Statement::Insert { table, column_value_pairs: pairs })
}

/// Pair each value with its column name positionally; with `has_cols`
/// false the names are absent.
fn pair_columns(has_cols: bool, cols: &Vec<String>, vals: &Vec<String>) -> (r: Vec<
    (Option<String>, String),
>)
    requires
        has_cols ==> cols@.len() == vals@.len(),
    ensures
        r.deep_view() == spec_pair_columns(
            if has_cols {
                Some(cols.deep_view())
            } else {
                None
            },
            vals.deep_view(),
        ),
{
    let ghost cv: Option<Seq<Seq<char>>> = if has_cols {
        Some(cols.deep_view())
    } else {
        None
    };
    let mut pairs: Vec<(Option<String>, String)> = Vec::new();
    let mut i: usize = 0;
    proof {
        assert(cols.deep_view().len() == cols@.len());
        assert(vals.deep_view().len() == vals@.len());
    }
    while i < vals.len()
        invariant
            i <= vals@.len(),
            has_cols ==> cols@.len() == vals@.len(),
            cv == if has_cols {
                Some(cols.deep_view())
            } else {
                None::<Seq<Seq<char>>>
            },
            cols.deep_view().len() == cols@.len(),
            vals.deep_view().len() == vals@.len(),
            pairs.deep_view() == spec_pair_columns(cv, vals.deep_view()).take(i as int),
        decreases vals@.len() - i,
    {
        let ghost pairs_before = pairs.deep_view();
        let name = if has_cols {
            Some(cols[i].clone())
        } else {
            None
        };
        let ghost name_view: Option<Seq<char>> = match name {
            Some(ref n) => Some(n@),
            None => None,
        };
        let val = vals[i].clone();
        let ghost val_view = val@;
        pairs.push((name, val));
        i = i + 1;
        proof {
            assert(pairs.deep_view() =~= pairs_before.push((name_view, val_view)));
            assert(spec_pair_columns(cv, vals.deep_view()).take(i as int) =~= spec_pair_columns(
                cv,
                vals.deep_view(),
            ).take(i - 1).push(spec_pair_columns(cv, vals.deep_view())[i - 1]));
        }
    }
    proof {
        assert(spec_pair_columns(cv, vals.deep_view()).take(vals@.len() as int) =~= spec_pair_columns(
            cv,
            vals.deep_view(),
        ));
    }
    pairs
}

/// Parse an `UPDATE` statement. Updates are outside this front end's
/// grammar: the call always fails, and never silently succeeds.
pub fn parse_update(t: &Vec<Token>) -> (r: Result<Statement, ParseError>)
    ensures
        match r {
            Ok(_) => false,
            Err(err) => err@ == ErrorV::SyntaxError("UPDATE is not supported"@),
        },
{
    let _ = t;
    Err(ParseError::SyntaxError("UPDATE is not supported".to_owned()))
}

/// Parse a `DELETE` statement. Deletes are outside this front end's
/// grammar: the call always fails, and never silently succeeds.
pub fn parse_delete(t: &Vec<Token>) -> (r: Result<Statement, ParseError>)
    ensures
        match r {
            Ok(_) => false,
            Err(err) => err@ == ErrorV::SyntaxError("DELETE is not supported"@),
        },
{
    let _ = t;
    Err(ParseError::SyntaxError("DELETE is not supported".to_owned()))
}

} // verus!
