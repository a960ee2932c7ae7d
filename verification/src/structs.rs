//! Conditions, projections, sort order and whole statements, together with
//! their mathematical views.

use vstd::prelude::*;
use crate::symbol::Symbol;
use crate::ast::{Expression, ExprV, expr_view};

verus! {

/// Sort direction of one `ORDER BY` entry.
#[derive(Debug, PartialEq, Eq, Structural, Clone, Copy)]
pub enum Sort {
    Asc,
    Desc,
}

impl View for Sort {
    type V = Sort;

    open spec fn view(&self) -> Sort {
        *self
    }
}

impl DeepView for Sort {
    type V = Sort;

    open spec fn deep_view(&self) -> Sort {
        *self
    }
}

/// An owned boolean condition tree. `And`, `Or` and `Not` fold conditions
/// as the parser encounters them; a comparison holds a full expression on
/// each side of a comparator symbol.
#[derive(Debug, PartialEq)]
pub enum Condition {
    And { left: Box<Condition>, right: Box<Condition> },
    Or { left: Box<Condition>, right: Box<Condition> },
    Not(Box<Condition>),
    Comparison { left: Expression, operator: Symbol, right: Expression },
}

/// The mathematical view of a [`Condition`].
#[verifier::ext_equal]
pub enum CondV {
    And { left: Box<CondV>, right: Box<CondV> },
    Or { left: Box<CondV>, right: Box<CondV> },
    Not(Box<CondV>),
    Comparison { left: ExprV, operator: Symbol, right: ExprV },
}

/// The view of a condition tree.
pub open spec fn cond_view(c: Condition) -> CondV
    decreases c,
{
    match c {
        Condition::And { left, right } => CondV::And {
            left: Box::new(cond_view(*left)),
            right: Box::new(cond_view(*right)),
        },
        Condition::Or { left, right } => CondV::Or {
            left: Box::new(cond_view(*left)),
            right: Box::new(cond_view(*right)),
        },
        Condition::Not(inner) => CondV::Not(Box::new(cond_view(*inner))),
        Condition::Comparison { left, operator, right } => CondV::Comparison {
            left: expr_view(left),
            operator,
            right: expr_view(right),
        },
    }
}

impl View for Condition {
    type V = CondV;

    open spec fn view(&self) -> CondV {
        cond_view(*self)
    }
}

impl DeepView for Condition {
    type V = CondV;

    open spec fn deep_view(&self) -> CondV {
        self.view()
    }
}

/// An expression list entry with its optional alias, as written in a
/// projection or a table list: `expr [AS alias]`.
pub type AliasedExpr = (Expression, Option<Expression>);

/// The view of an aliased entry.
pub open spec fn aliased_view(p: AliasedExpr) -> (ExprV, Option<ExprV>) {
    (
        expr_view(p.0),
        match p.1 {
            Some(a) => Some(expr_view(a)),
            None => None,
        },
    )
}

/// The views of a list of aliased entries, in order.
pub open spec fn aliased_list_view(s: Seq<AliasedExpr>) -> Seq<(ExprV, Option<ExprV>)> {
    s.map_values(|p: AliasedExpr| aliased_view(p))
}

/// The deep view of an aliased-entry vector is the view of its element
/// sequence.
pub broadcast proof fn lemma_deep_view_aliased(v: Vec<AliasedExpr>)
    ensures
        #[trigger] v.deep_view() == aliased_list_view(v@),
{
    assert(v.deep_view() =~= aliased_list_view(v@));
}

/// The deep view of an `ORDER BY` vector is the view of its element
/// sequence.
pub broadcast proof fn lemma_deep_view_order_by(v: Vec<(String, Sort)>)
    ensures
        #[trigger] v.deep_view() == order_by_view(v@),
{
    assert(v.deep_view() =~= order_by_view(v@));
}

/// The deep view of a column-value vector is the view of its element
/// sequence.
pub broadcast proof fn lemma_deep_view_column_values(v: Vec<(Option<String>, String)>)
    ensures
        #[trigger] v.deep_view() == column_values_view(v@),
{
    assert(v.deep_view() =~= column_values_view(v@));
}

/// What a `SELECT` or `GROUP BY` projects: the wildcard `*`, or an ordered
/// list of expressions with optional aliases. Insertion order defines the
/// output column order.
#[derive(Debug, PartialEq)]
pub enum Projection {
    AllColumns,
    Columns(Vec<AliasedExpr>),
}

/// The mathematical view of a [`Projection`].
#[verifier::ext_equal]
pub enum ProjectionV {
    AllColumns,
    Columns(Seq<(ExprV, Option<ExprV>)>),
}

impl View for Projection {
    type V = ProjectionV;

    open spec fn view(&self) -> ProjectionV {
        match self {
            Projection::AllColumns => ProjectionV::AllColumns,
            Projection::Columns(cols) => ProjectionV::Columns(aliased_list_view(cols@)),
        }
    }
}

impl DeepView for Projection {
    type V = ProjectionV;

    open spec fn deep_view(&self) -> ProjectionV {
        self.view()
    }
}

/// One fully parsed statement, the terminal owned output of a parse call.
#[derive(Debug, PartialEq)]
pub enum Statement {
    /// A `SELECT` statement with every clause in grammar order.
    Select {
        distinct: bool,
        projections: Projection,
        tables: Vec<AliasedExpr>,
        filter: Option<Condition>,
        group_by: Projection,
        having: Option<Condition>,
        order_by: Option<Vec<(String, Sort)>>,
    },
    /// An `INSERT INTO ... VALUES` statement. Each pair carries a column
    /// name where a column list was given, and `None` where the values
    /// were written without one.
    Insert { table: String, column_value_pairs: Vec<(Option<String>, String)> },
}

/// The view of an `ORDER BY` list.
pub open spec fn order_by_view(s: Seq<(String, Sort)>) -> Seq<(Seq<char>, Sort)> {
    s.map_values(|p: (String, Sort)| (p.0@, p.1))
}

/// The view of an `INSERT` column-value list.
pub open spec fn column_values_view(s: Seq<(Option<String>, String)>) -> Seq<
    (Option<Seq<char>>, Seq<char>),
> {
    s.map_values(
        |p: (Option<String>, String)|
            (
                match p.0 {
                    Some(c) => Some(c@),
                    None => None,
                },
                p.1@,
            ),
    )
}

/// The mathematical view of a [`Statement`].
#[verifier::ext_equal]
pub enum StatementV {
    Select {
        distinct: bool,
        projections: ProjectionV,
        tables: Seq<(ExprV, Option<ExprV>)>,
        filter: Option<CondV>,
        group_by: ProjectionV,
        having: Option<CondV>,
        order_by: Option<Seq<(Seq<char>, Sort)>>,
    },
    Insert { table: Seq<char>, column_value_pairs: Seq<(Option<Seq<char>>, Seq<char>)> },
}

impl View for Statement {
    type V = StatementV;

    open spec fn view(&self) -> StatementV {
        match self {
            Statement::Select { distinct, projections, tables, filter, group_by, having, order_by } => StatementV::Select {
                distinct: *distinct,
                projections: projections@,
                tables: aliased_list_view(tables@),
                filter: match filter {
                    Some(c) => Some(cond_view(*c)),
                    None => None,
                },
                group_by: group_by@,
                having: match having {
                    Some(c) => Some(cond_view(*c)),
                    None => None,
                },
                order_by: match order_by {
                    Some(o) => Some(order_by_view(o@)),
                    None => None,
                },
            },
            Statement::Insert { table, column_value_pairs } => StatementV::Insert {
                table: table@,
                column_value_pairs: column_values_view(column_value_pairs@),
            },
        }
    }
}

impl DeepView for Statement {
    type V = StatementV;

    open spec fn deep_view(&self) -> StatementV {
        self.view()
    }
}

} // verus!
