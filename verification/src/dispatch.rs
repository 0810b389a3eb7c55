//! From a set operator and a quantifier to the plan that combines two plans.

use crate::error::{outcome, PlanError, PlanErrorView};
use crate::operator::{combination_for, select_combination, SetOperator, SetQuantifier};
use crate::plan::{build, built};
use datafusion_common::DataFusionError;
use datafusion_expr::LogicalPlan;
use vstd::prelude::*;
use vstd::string::StringExecFns;

verus! {

/// The text that names an operator and a quantifier the planner has no
/// combination for.
pub open spec fn not_implemented_message(op: SetOperator, quantifier: SetQuantifier) -> Seq<char> {
    op.name_spec() + " "@ + quantifier.name_spec() + " not implemented"@
}

/// The builder's outcome as the planner reports it: the plan as it is, an
/// error as an `External` error around it.
pub open spec fn handed_on(result: Result<LogicalPlan, DataFusionError>) -> Result<
    LogicalPlan,
    PlanErrorView,
> {
    match result {
        Ok(plan) => Ok(plan),
        Err(error) => Err(PlanErrorView::External(error)),
    }
}

/// What a set operation makes of the plans of its two sides: the builder's
/// outcome for the combination the table gives, or `NotImplemented` where
/// the table gives none.
pub open spec fn dispatched(
    op: SetOperator,
    quantifier: SetQuantifier,
    left: LogicalPlan,
    right: LogicalPlan,
) -> Result<LogicalPlan, PlanErrorView> {
    match combination_for(op, quantifier) {
        Some(combination) => handed_on(built(combination, left, right)),
        None => Err(PlanErrorView::NotImplemented(not_implemented_message(op, quantifier))),
    }
}

/// Hands on what the builder returned, with nothing added or taken away.
pub fn plan_or_error(built: Result<LogicalPlan, DataFusionError>) -> (result: Result<
    LogicalPlan,
    PlanError,
>)
    ensures
        outcome(result) == handed_on(built),
{
    match built {
        Ok(plan) => Ok(plan),
        Err(error) => Err(PlanError::External(error)),
    }
}

fn not_implemented_text(op: SetOperator, quantifier: SetQuantifier) -> (text: String)
    ensures
        text@ == not_implemented_message(op, quantifier),
{
    let mut text = String::from_str(op.name());
    text.append(" ");
    text.append(quantifier.name());
    text.append(" not implemented");
    text
}

/// Combines the plans of the two sides of a set operation.
///
/// The operator and the quantifier pick the combination. The builder's
/// outcome is returned as it comes. A pair without a combination fails with
/// `NotImplemented`, and the builder is not called.
pub fn set_operation_to_plan(
    op: SetOperator,
    left_plan: LogicalPlan,
    right_plan: LogicalPlan,
    set_quantifier: SetQuantifier,
) -> (result: Result<LogicalPlan, PlanError>)
    ensures
        outcome(result) == dispatched(op, set_quantifier, left_plan, right_plan),
{
    match select_combination(op, set_quantifier) {
        Some(combination) => plan_or_error(build(combination, left_plan, right_plan)),
        None => Err(PlanError::NotImplemented(not_implemented_text(op, set_quantifier))),
    }
}

} // verus!
