//! The syntax tree of a set expression.

use crate::operator::{SetOperator, SetQuantifier};
use crate::span::Span;
use vstd::prelude::*;

verus! {

/// A node of a set expression, with the place in the query it was read from.
///
/// `S` is a `SELECT` clause and `V` a `VALUES` list. This library hands them
/// to the planners of its caller and does not look inside.
#[derive(Debug)]
pub struct SetExpression<S, V> {
    pub kind: SetExpressionKind<S, V>,
    pub span: Option<Span>,
}

/// What a node of a set expression is.
#[derive(Debug)]
pub enum SetExpressionKind<S, V> {
    Select(S),
    Values(V),
    SetOperation {
        operator: SetOperator,
        left: Box<SetExpression<S, V>>,
        right: Box<SetExpression<S, V>>,
        quantifier: SetQuantifier,
    },
    Query(Box<SetExpression<S, V>>),
    Unsupported(String),
}

} // verus!
