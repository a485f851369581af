use vstd::prelude::*;
use crate::expr::{Expression, Type};
use crate::infer::type_of;

verus! {

/// `s` is `e` itself or one of its descendants.
pub open spec fn occurs_in(s: Expression, e: Expression) -> bool
    decreases e,
{
    s == e || match e {
        Expression::BoolLiteral(_) | Expression::IntLiteral(_) => false,
        Expression::If { condition, consequent, alternative } => occurs_in(s, *condition)
            || occurs_in(s, *consequent) || occurs_in(s, *alternative),
        Expression::Addition(l, r)
        | Expression::Subtraction(l, r)
        | Expression::Multiplication(l, r)
        | Expression::Equality(l, r)
        | Expression::LessThan(l, r)
        | Expression::GreaterThan(l, r) => occurs_in(s, *l) || occurs_in(s, *r),
    }
}

/// Every boolean literal has type `Bool`.
pub proof fn lemma_bool_literal(b: bool)
    ensures
        type_of(Expression::BoolLiteral(b)) == Some(Type::Bool),
{
}

/// Every integer literal has type `Int`.
pub proof fn lemma_int_literal(n: i64)
    ensures
        type_of(Expression::IntLiteral(n)) == Some(Type::Int),
{
}

/// Addition, subtraction and multiplication have type `Int` exactly when both
/// operands have type `Int`, and no type otherwise.
pub proof fn lemma_arithmetic(a: Expression, b: Expression)
    ensures
        type_of(Expression::Addition(Box::new(a), Box::new(b))) == (if type_of(a) == Some(
            Type::Int,
        ) && type_of(b) == Some(Type::Int) {
            Some(Type::Int)
        } else {
            None
        }),
        type_of(Expression::Subtraction(Box::new(a), Box::new(b))) == (if type_of(a) == Some(
            Type::Int,
        ) && type_of(b) == Some(Type::Int) {
            Some(Type::Int)
        } else {
            None
        }),
        type_of(Expression::Multiplication(Box::new(a), Box::new(b))) == (if type_of(a) == Some(
            Type::Int,
        ) && type_of(b) == Some(Type::Int) {
            Some(Type::Int)
        } else {
            None
        }),
{
}

/// `<` and `>` have type `Bool` exactly when both operands have type `Int`,
/// and no type otherwise.
pub proof fn lemma_ordering(a: Expression, b: Expression)
    ensures
        type_of(Expression::LessThan(Box::new(a), Box::new(b))) == (if type_of(a) == Some(
            Type::Int,
        ) && type_of(b) == Some(Type::Int) {
            Some(Type::Bool)
        } else {
            None
        }),
        type_of(Expression::GreaterThan(Box::new(a), Box::new(b))) == (if type_of(a) == Some(
            Type::Int,
        ) && type_of(b) == Some(Type::Int) {
            Some(Type::Bool)
        } else {
            None
        }),
{
}

/// An equality has its left operand's type exactly when both operands are
/// well-typed and of the same type, and no type otherwise.
pub proof fn lemma_equality(a: Expression, b: Expression)
    ensures
        type_of(Expression::Equality(Box::new(a), Box::new(b))) == (if type_of(a) is Some
            && type_of(a) == type_of(b) {
            type_of(a)
        } else {
            None
        }),
{
}

/// A conditional has its consequent's type exactly when the condition has type
/// `Bool` and both branches are well-typed and of the same type, and no type
/// otherwise.
pub proof fn lemma_conditional(c: Expression, t: Expression, f: Expression)
    ensures
        type_of(
            Expression::If {
                condition: Box::new(c),
                consequent: Box::new(t),
                alternative: Box::new(f),
            },
        ) == (if type_of(c) == Some(Type::Bool) && type_of(t) is Some && type_of(t) == type_of(f) {
            type_of(t)
        } else {
            None
        }),
{
}

/// An expression with an ill-typed subexpression is itself ill-typed.
pub proof fn lemma_ill_typed_propagates(s: Expression, e: Expression)
    requires
        occurs_in(s, e),
        type_of(s) is None,
    ensures
        type_of(e) is None,
    decreases e,
{
    if s != e {
        match e {
            Expression::BoolLiteral(_) | Expression::IntLiteral(_) => {},
            Expression::If { condition, consequent, alternative } => {
                if occurs_in(s, *condition) {
                    lemma_ill_typed_propagates(s, *condition);
                } else if occurs_in(s, *consequent) {
                    lemma_ill_typed_propagates(s, *consequent);
                } else {
                    lemma_ill_typed_propagates(s, *alternative);
                }
            },
            Expression::Addition(l, r)
            | Expression::Subtraction(l, r)
            | Expression::Multiplication(l, r)
            | Expression::Equality(l, r)
            | Expression::LessThan(l, r)
            | Expression::GreaterThan(l, r) => {
                if occurs_in(s, *l) {
                    lemma_ill_typed_propagates(s, *l);
                } else {
                    lemma_ill_typed_propagates(s, *r);
                }
            },
        }
    }
}

} // verus!
