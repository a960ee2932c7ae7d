//! Expression trees: leaf values, function calls, binary and unary
//! operators, together with their mathematical views.

use vstd::prelude::*;
use crate::symbol::Symbol;
use crate::function::Function;

verus! {

/// A leaf of an expression tree: a column reference, a numeric literal
/// kept as raw text, or a bind variable.
#[derive(Debug, PartialEq)]
pub enum Value {
    Identifier(String),
    Number(String),
    Variable(String),
}

/// The mathematical view of a [`Value`].
#[verifier::ext_equal]
pub enum ValueV {
    Identifier(Seq<char>),
    Number(Seq<char>),
    Variable(Seq<char>),
}

impl View for Value {
    type V = ValueV;

    open spec fn view(&self) -> ValueV {
        match self {
            Value::Identifier(s) => ValueV::Identifier(s@),
            Value::Number(s) => ValueV::Number(s@),
            Value::Variable(s) => ValueV::Variable(s@),
        }
    }
}

impl DeepView for Value {
    type V = ValueV;

    open spec fn deep_view(&self) -> ValueV {
        self.view()
    }
}

/// An owned expression tree. Binary operators are left-associative, so a
/// chain folds into a left-leaning tree; a unary operator holds exactly
/// its operand, distinct from the binary shape.
#[derive(Debug, PartialEq)]
pub enum Expression {
    /// A leaf value.
    Value(Value),
    /// A call of a built-in function with its ordered arguments.
    FunctionCall(Function, Vec<Expression>),
    /// An operator applied to two sub-expressions.
    BinaryOp(Symbol, Box<Expression>, Box<Expression>),
    /// A sign applied to one sub-expression.
    UnaryOp(Symbol, Box<Expression>),
}

/// The mathematical view of an [`Expression`].
#[verifier::ext_equal]
pub enum ExprV {
    Value(ValueV),
    FunctionCall(Function, Seq<ExprV>),
    BinaryOp(Symbol, Box<ExprV>, Box<ExprV>),
    UnaryOp(Symbol, Box<ExprV>),
}

/// The view of an expression tree.
pub open spec fn expr_view(e: Expression) -> ExprV
    decreases e,
{
    match e {
        Expression::Value(v) => ExprV::Value(v@),
        Expression::FunctionCall(f, args) => ExprV::FunctionCall(f, exprs_view(args@)),
        Expression::BinaryOp(op, l, r) => ExprV::BinaryOp(
            op,
            Box::new(expr_view(*l)),
            Box::new(expr_view(*r)),
        ),
        Expression::UnaryOp(op, x) => ExprV::UnaryOp(op, Box::new(expr_view(*x))),
    }
}

/// The views of a sequence of expression trees, in order.
pub open spec fn exprs_view(s: Seq<Expression>) -> Seq<ExprV>
    decreases s,
{
    if s.len() == 0 {
        Seq::empty()
    } else {
        seq![expr_view(s[0])] + exprs_view(s.drop_first())
    }
}

/// The element views of a sequence of expressions are its view elements.
pub proof fn lemma_exprs_view(s: Seq<Expression>)
    ensures
        exprs_view(s).len() == s.len(),
        forall|i: int| 0 <= i < s.len() ==> exprs_view(s)[i] == expr_view(#[trigger] s[i]),
    decreases s,
{
    if s.len() > 0 {
        lemma_exprs_view(s.drop_first());
        assert forall|i: int| 0 <= i < s.len() implies exprs_view(s)[i] == expr_view(
            #[trigger] s[i],
        ) by {
            if i > 0 {
                assert(exprs_view(s)[i] == exprs_view(s.drop_first())[i - 1]);
                assert(s.drop_first()[i - 1] == s[i]);
            }
        }
    }
}

/// The deep view of an expression vector is the view of its element
/// sequence.
pub broadcast proof fn lemma_deep_view_exprs(v: Vec<Expression>)
    ensures
        #[trigger] v.deep_view() == exprs_view(v@),
{
    lemma_exprs_view(v@);
    assert(v.deep_view() =~= exprs_view(v@));
}

impl View for Expression {
    type V = ExprV;

    open spec fn view(&self) -> ExprV {
        expr_view(*self)
    }
}

impl DeepView for Expression {
    type V = ExprV;

    open spec fn deep_view(&self) -> ExprV {
        self.view()
    }
}

impl Expression {
    /// Combine two sub-expressions under a binary operator, the running
    /// left-hand tree first.
    pub fn new(left: Expression, symbol: Symbol, right: Expression) -> (r: Expression)
        ensures
            r@ == ExprV::BinaryOp(symbol, Box::new(left@), Box::new(right@)),
    {
        Expression::BinaryOp(symbol, Box::new(left), Box::new(right))
    }
}

} // verus!
