use vstd::prelude::*;
use crate::expr::{Expression, Type};

verus! {

/// The type of an arithmetic node (`+`, `-`, `*`) whose operands have types `l` and `r`.
pub open spec fn arith_rule(l: Option<Type>, r: Option<Type>) -> Option<Type> {
    if l == Some(Type::Int) && r == Some(Type::Int) {
        Some(Type::Int)
    } else {
        None
    }
}

/// The type of an ordering node (`<`, `>`) whose operands have types `l` and `r`.
pub open spec fn order_rule(l: Option<Type>, r: Option<Type>) -> Option<Type> {
    if l == Some(Type::Int) && r == Some(Type::Int) {
        Some(Type::Bool)
    } else {
        None
    }
}

/// The type of an equality node: the operands' common type, if they agree.
pub open spec fn equality_rule(l: Option<Type>, r: Option<Type>) -> Option<Type> {
    if l == r {
        l
    } else {
        None
    }
}

/// The type of a conditional: the branches' common type, if the condition is boolean.
pub open spec fn if_rule(c: Option<Type>, t: Option<Type>, f: Option<Type>) -> Option<Type> {
    if c == Some(Type::Bool) && t == f {
        t
    } else {
        None
    }
}

/// The type of `e`, or `None` when `e` is ill-typed.
pub open spec fn type_of(e: Expression) -> Option<Type>
    decreases e,
{
    match e {
        Expression::BoolLiteral(_) => Some(Type::Bool),
        Expression::IntLiteral(_) => Some(Type::Int),
        Expression::If { condition, consequent, alternative } => if_rule(
            type_of(*condition),
            type_of(*consequent),
            type_of(*alternative),
        ),
        Expression::Addition(l, r) => arith_rule(type_of(*l), type_of(*r)),
        Expression::Subtraction(l, r) => arith_rule(type_of(*l), type_of(*r)),
        Expression::Multiplication(l, r) => arith_rule(type_of(*l), type_of(*r)),
        Expression::Equality(l, r) => equality_rule(type_of(*l), type_of(*r)),
        Expression::LessThan(l, r) => order_rule(type_of(*l), type_of(*r)),
        Expression::GreaterThan(l, r) => order_rule(type_of(*l), type_of(*r)),
    }
}

fn is_int(t: Option<Type>) -> (r: bool)
    ensures
        r == (t == Some(Type::Int)),
{
    match t {
        Some(Type::Int) => true,
        _ => false,
    }
}

fn same_type(a: Option<Type>, b: Option<Type>) -> (r: bool)
    ensures
        r == (a == b),
{
    match (a, b) {
        (None, None) => true,
        (Some(Type::Bool), Some(Type::Bool)) => true,
        (Some(Type::Int), Some(Type::Int)) => true,
        _ => false,
    }
}

/// Infers the type of `expr`, returning `None` when it is ill-typed.
pub fn infer(expr: &Expression) -> (r: Option<Type>)
    ensures
        r == type_of(*expr),
    decreases expr,
{
    match expr {
        Expression::BoolLiteral(_) => Some(Type::Bool),
        Expression::IntLiteral(_) => Some(Type::Int),
        Expression::If { condition, consequent, alternative } => {
            match infer(condition) {
                Some(Type::Bool) => {
                    let consequent_type = infer(consequent);
                    let alternative_type = infer(alternative);
                    if same_type(consequent_type, alternative_type) {
                        consequent_type
                    } else {
                        None
                    }
                },
                _ => None,
            }
        },
        Expression::Addition(l, r)
        | Expression::Subtraction(l, r)
        | Expression::Multiplication(l, r) => {
            if is_int(infer(l)) && is_int(infer(r)) {
                Some(Type::Int)
            } else {
                None
            }
        },
        Expression::Equality(l, r) => {
            let left_type = infer(l);
            let right_type = infer(r);
            if same_type(left_type, right_type) {
                left_type
            } else {
                None
            }
        },
        Expression::LessThan(l, r) | Expression::GreaterThan(l, r) => {
            if is_int(infer(l)) && is_int(infer(r)) {
                Some(Type::Bool)
            } else {
                None
            }
        },
    }
}

} // verus!
