//! Translation of a set expression into a logical plan.
//!
//! The translation walks the tree once, from the leaves up. A `SELECT` clause
//! or a `VALUES` list is planned by the caller's planner. A set operation
//! plans both of its sides, whatever comes of the first, so that a query with
//! a defect on each side reports both.

use crate::arity::{arity_checked, validate_set_expr_num_of_columns};
use crate::context::PlannerContext;
use crate::dispatch::{dispatched, set_operation_to_plan};
use crate::error::{outcome, PlanError, PlanErrorView};
use crate::expr::{SetExpression, SetExpressionKind};
use crate::operator::{SetOperator, SetQuantifier};
use crate::plan::schema_width;
use crate::span::Span;
use datafusion_expr::LogicalPlan;
use vstd::prelude::*;
use vstd::string::StringExecFns;

verus! {

/// The text that names a kind of query the planner does not support.
pub open spec fn unsupported_message(description: Seq<char>) -> Seq<char> {
    "Query "@ + description + " not implemented yet"@
}

/// What a set operation comes to, given what its two sides came to.
///
/// Two plans are combined as the operator and the quantifier say, after the
/// check of their field counts unless the quantifier matches columns by name.
/// Two errors come back together, the left one first. One error comes back
/// as it is.
pub open spec fn combined(
    op: SetOperator,
    quantifier: SetQuantifier,
    left_span: Option<Span>,
    right_span: Option<Span>,
    set_expr_span: Option<Span>,
    left: Result<LogicalPlan, PlanErrorView>,
    right: Result<LogicalPlan, PlanErrorView>,
) -> Result<LogicalPlan, PlanErrorView> {
    match (left, right) {
        (Ok(left_plan), Ok(right_plan)) => {
            if quantifier.matches_by_name() {
                dispatched(op, quantifier, left_plan, right_plan)
            } else {
                match arity_checked(
                    op,
                    left_span,
                    right_span,
                    schema_width(left_plan),
                    schema_width(right_plan),
                    set_expr_span,
                ) {
                    Ok(()) => dispatched(op, quantifier, left_plan, right_plan),
                    Err(error) => Err(error),
                }
            }
        },
        (Err(left_error), Err(right_error)) => Err(
            PlanErrorView::Collection(seq![left_error, right_error]),
        ),
        (Err(left_error), Ok(_)) => Err(left_error),
        (Ok(_), Err(right_error)) => Err(right_error),
    }
}

/// What a planner may come to: a clause, a context and an outcome.
pub type Planned<A> = spec_fn(A, PlannerContext, Result<LogicalPlan, PlanErrorView>) -> bool;

/// What a planner may come to for a clause in a context: the outcomes of
/// the results that the planner may return for them.
pub open spec fn planned_by<A, P>(planner: P) -> Planned<A> where
    P: Fn(A, PlannerContext) -> Result<LogicalPlan, PlanError>,
 {
    |clause: A, context: PlannerContext, out: Result<LogicalPlan, PlanErrorView>|
        exists|planned: Result<LogicalPlan, PlanError>|
            #[trigger] call_ensures(planner, (clause, context), planned) && outcome(planned)
                == out
}

/// Whether `out` is an outcome of translating `set_expr` in `context`, where
/// `selects` and `values` tell what the planners of the leaves may come to.
///
/// A planner need not give the same answer twice, so this is a relation: a
/// leaf may come to whatever its planner may come to for it.
pub open spec fn translates<S, V>(
    set_expr: SetExpression<S, V>,
    context: PlannerContext,
    selects: Planned<S>,
    values: Planned<V>,
    out: Result<LogicalPlan, PlanErrorView>,
) -> bool
    decreases set_expr,
{
    match set_expr.kind {
        SetExpressionKind::Select(select) => selects(select, context, out),
        SetExpressionKind::Values(list) => values(list, context, out),
        SetExpressionKind::SetOperation { operator, left, right, quantifier } => exists|
            left_out: Result<LogicalPlan, PlanErrorView>,
            right_out: Result<LogicalPlan, PlanErrorView>,
        |
            translates(*left, context, selects, values, left_out) && translates(
                *right,
                context,
                selects,
                values,
                right_out,
            ) && out == #[trigger] combined(
                operator,
                quantifier,
                left.span,
                right.span,
                set_expr.span,
                left_out,
                right_out,
            ),
        SetExpressionKind::Query(inner) => if context.may_descend() {
            translates(*inner, context.deeper(), selects, values, out)
        } else {
            out == Err::<LogicalPlan, PlanErrorView>(PlanErrorView::RecursionLimitExceeded)
        },
        SetExpressionKind::Unsupported(description) => out == Err::<LogicalPlan, PlanErrorView>(
            PlanErrorView::NotImplemented(unsupported_message(description@)),
        ),
    }
}

/// Finishes a set operation from what its two sides came to.
pub fn combine_set_operation(
    op: SetOperator,
    set_quantifier: SetQuantifier,
    left_span: Option<Span>,
    right_span: Option<Span>,
    set_expr_span: Option<Span>,
    left_result: Result<LogicalPlan, PlanError>,
    right_result: Result<LogicalPlan, PlanError>,
) -> (result: Result<LogicalPlan, PlanError>)
    ensures
        outcome(result) == combined(
            op,
            set_quantifier,
            left_span,
            right_span,
            set_expr_span,
            outcome(left_result),
            outcome(right_result),
        ),
{
    match (left_result, right_result) {
        (Ok(left_plan), Ok(right_plan)) => {
            if !set_quantifier.is_by_name() {
                match validate_set_expr_num_of_columns(
                    op,
                    left_span,
                    right_span,
                    &left_plan,
                    &right_plan,
                    set_expr_span,
                ) {
                    Ok(()) => {},
                    Err(error) => {
                        return Err(error);
                    },
                }
            }
            set_operation_to_plan(op, left_plan, right_plan, set_quantifier)
        },
        (Err(left_error), Err(right_error)) => Err(
            PlanError::collection_of(left_error, right_error),
        ),
        (Err(error), Ok(_)) => Err(error),
        (Ok(_), Err(error)) => Err(error),
    }
}

fn unsupported_text(description: &String) -> (text: String)
    ensures
        text@ == unsupported_message(description@),
{
    let mut text = String::from_str("Query ");
    text.append(description.as_str());
    text.append(" not implemented yet");
    text
}

/// Translates a set expression into a logical plan.
///
/// - A `SELECT` clause goes to `select_to_plan` and a `VALUES` list to
///   `sql_values_to_plan`, each with the context; what the planner returns
///   is the result.
/// - A nested query is translated one level deeper, or fails with
///   `RecursionLimitExceeded` at the ceiling of the context.
/// - A set operation translates its left side, then its right side, and
///   finishes as `combine_set_operation` says.
/// - An unsupported kind of query fails with `NotImplemented`.
pub fn set_expr_to_plan<S, V, PS, PV>(
    set_expr: SetExpression<S, V>,
    planner_context: PlannerContext,
    select_to_plan: &PS,
    sql_values_to_plan: &PV,
) -> (result: Result<LogicalPlan, PlanError>) where
    PS: Fn(S, PlannerContext) -> Result<LogicalPlan, PlanError>,
    PV: Fn(V, PlannerContext) -> Result<LogicalPlan, PlanError>,

    requires
        forall|select: S, context: PlannerContext| #[trigger]
            call_requires(*select_to_plan, (select, context)),
        forall|values: V, context: PlannerContext| #[trigger]
            call_requires(*sql_values_to_plan, (values, context)),
    ensures
        translates(
            set_expr,
            planner_context,
            planned_by(*select_to_plan),
            planned_by(*sql_values_to_plan),
            outcome(result),
        ),
    decreases set_expr,
{
    let set_expr_span = set_expr.span;
    match set_expr.kind {
        SetExpressionKind::Select(select) => select_to_plan(select, planner_context),
        SetExpressionKind::Values(values) => sql_values_to_plan(values, planner_context),
        SetExpressionKind::SetOperation { operator, left, right, quantifier } => {
            let left_span = left.span;
            let right_span = right.span;
            let left_result = set_expr_to_plan(
                *left,
                planner_context,
                select_to_plan,
                sql_values_to_plan,
            );
            let right_result = set_expr_to_plan(
                *right,
                planner_context,
                select_to_plan,
                sql_values_to_plan,
            );
            combine_set_operation(
                operator,
                quantifier,
                left_span,
                right_span,
                set_expr_span,
                left_result,
                right_result,
            )
        },
        SetExpressionKind::Query(inner) => match planner_context.descend() {
            Some(deeper) => set_expr_to_plan(*inner, deeper, select_to_plan, sql_values_to_plan),
            None => Err(PlanError::RecursionLimitExceeded),
        },
        SetExpressionKind::Unsupported(description) => Err(
            PlanError::NotImplemented(unsupported_text(&description)),
        ),
    }
}

} // verus!
