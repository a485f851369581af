use vstd::prelude::*;

verus! {

/// The types of the language.
#[derive(Debug, Clone, Copy, PartialEq, Eq, Structural)]
pub enum Type {
    Bool,
    Int,
}

/// An expression tree; each inner node owns its children.
#[derive(Debug, PartialEq, Eq)]
pub enum Expression {
    BoolLiteral(bool),
    IntLiteral(i64),
    If { condition: Box<Expression>, consequent: Box<Expression>, alternative: Box<Expression> },
    Addition(Box<Expression>, Box<Expression>),
    Subtraction(Box<Expression>, Box<Expression>),
    Multiplication(Box<Expression>, Box<Expression>),
    Equality(Box<Expression>, Box<Expression>),
    LessThan(Box<Expression>, Box<Expression>),
    GreaterThan(Box<Expression>, Box<Expression>),
}

impl From<i64> for Expression {
    fn from(value: i64) -> (r: Self)
        ensures
            r == Expression::IntLiteral(value),
    {
        Expression::IntLiteral(value)
    }
}

impl vstd::std_specs::convert::FromSpecImpl<i64> for Expression {
    open spec fn obeys_from_spec() -> bool {
        true
    }

    open spec fn from_spec(v: i64) -> Expression {
        Expression::IntLiteral(v)
    }
}

impl From<bool> for Expression {
    fn from(value: bool) -> (r: Self)
        ensures
            r == Expression::BoolLiteral(value),
    {
        Expression::BoolLiteral(value)
    }
}

impl vstd::std_specs::convert::FromSpecImpl<bool> for Expression {
    open spec fn obeys_from_spec() -> bool {
        true
    }

    open spec fn from_spec(v: bool) -> Expression {
        Expression::BoolLiteral(v)
    }
}

} // verus!
