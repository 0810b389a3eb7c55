//! The logical plan of the query engine, and the operations that build one
//! plan out of two.
//!
//! Plans and the builder's errors belong to `datafusion_expr` and
//! `datafusion_common`. Nothing here looks inside them. Each operation of the
//! builder is a function of the plans it is given, and this module gives its
//! outcome a name, so that the planner can say exactly which operation it
//! applied to which plans. What the outcome is, is the builder's business.

use crate::operator::Combination;
use datafusion_common::DataFusionError;
use datafusion_expr::{LogicalPlan, LogicalPlanBuilder};
use vstd::prelude::*;

verus! {

/// `datafusion_expr::LogicalPlan`, a tree of relational operators with an
/// output schema. Opaque here.
#[verifier::external_type_specification]
#[verifier::external_body]
pub struct ExLogicalPlan(LogicalPlan);

/// `datafusion_common::DataFusionError`, the error of the plan builder.
/// Opaque here.
#[verifier::external_type_specification]
#[verifier::external_body]
pub struct ExDataFusionError(DataFusionError);

/// The number of fields in the output schema of a plan.
pub uninterp spec fn schema_width(plan: LogicalPlan) -> nat;

/// What `LogicalPlanBuilder::union` makes of two plans.
pub uninterp spec fn union_of(left: LogicalPlan, right: LogicalPlan) -> Result<
    LogicalPlan,
    DataFusionError,
>;

/// What `LogicalPlanBuilder::union_by_name` makes of two plans.
pub uninterp spec fn union_by_name_of(left: LogicalPlan, right: LogicalPlan) -> Result<
    LogicalPlan,
    DataFusionError,
>;

/// What `LogicalPlanBuilder::union_distinct` makes of two plans.
pub uninterp spec fn union_distinct_of(left: LogicalPlan, right: LogicalPlan) -> Result<
    LogicalPlan,
    DataFusionError,
>;

/// What `LogicalPlanBuilder::union_by_name_distinct` makes of two plans.
pub uninterp spec fn union_by_name_distinct_of(left: LogicalPlan, right: LogicalPlan) -> Result<
    LogicalPlan,
    DataFusionError,
>;

/// What `LogicalPlanBuilder::intersect` makes of two plans.
pub uninterp spec fn intersect_of(left: LogicalPlan, right: LogicalPlan, all: bool) -> Result<
    LogicalPlan,
    DataFusionError,
>;

/// What `LogicalPlanBuilder::except` makes of two plans.
pub uninterp spec fn except_of(left: LogicalPlan, right: LogicalPlan, all: bool) -> Result<
    LogicalPlan,
    DataFusionError,
>;

/// What the builder makes of two plans under a given combination.
pub open spec fn built(combination: Combination, left: LogicalPlan, right: LogicalPlan) -> Result<
    LogicalPlan,
    DataFusionError,
> {
    match combination {
        Combination::Union => union_of(left, right),
        Combination::UnionByName => union_by_name_of(left, right),
        Combination::UnionDistinct => union_distinct_of(left, right),
        Combination::UnionByNameDistinct => union_by_name_distinct_of(left, right),
        Combination::Intersect { all } => intersect_of(left, right, all),
        Combination::Except { all } => except_of(left, right, all),
    }
}

/// Calls `LogicalPlan::schema` and counts the fields of the schema. Trusted:
/// the count is the plan's `schema_width`.
#[verifier::external_body]
pub(crate) fn field_count(plan: &LogicalPlan) -> (count: usize)
    ensures
        count == schema_width(*plan),
{
    plan.schema().fields().len()
}

/// Calls `LogicalPlanBuilder::union` on a builder made from `left`. Trusted:
/// the outcome depends on the two plans alone.
#[verifier::external_body]
pub(crate) fn union(left: LogicalPlan, right: LogicalPlan) -> (result: Result<
    LogicalPlan,
    DataFusionError,
>)
    ensures
        result == union_of(left, right),
{
    match LogicalPlanBuilder::from(left).union(right) {
        Ok(builder) => builder.build(),
        Err(error) => Err(error),
    }
}

/// Calls `LogicalPlanBuilder::union_by_name` on a builder made from `left`.
/// Trusted: the outcome depends on the two plans alone.
#[verifier::external_body]
pub(crate) fn union_by_name(left: LogicalPlan, right: LogicalPlan) -> (result: Result<
    LogicalPlan,
    DataFusionError,
>)
    ensures
        result == union_by_name_of(left, right),
{
    match LogicalPlanBuilder::from(left).union_by_name(right) {
        Ok(builder) => builder.build(),
        Err(error) => Err(error),
    }
}

/// Calls `LogicalPlanBuilder::union_distinct` on a builder made from `left`.
/// Trusted: the outcome depends on the two plans alone.
#[verifier::external_body]
pub(crate) fn union_distinct(left: LogicalPlan, right: LogicalPlan) -> (result: Result<
    LogicalPlan,
    DataFusionError,
>)
    ensures
        result == union_distinct_of(left, right),
{
    match LogicalPlanBuilder::from(left).union_distinct(right) {
        Ok(builder) => builder.build(),
        Err(error) => Err(error),
    }
}

/// Calls `LogicalPlanBuilder::union_by_name_distinct` on a builder made from
/// `left`. Trusted: the outcome depends on the two plans alone.
#[verifier::external_body]
pub(crate) fn union_by_name_distinct(left: LogicalPlan, right: LogicalPlan) -> (result: Result<
    LogicalPlan,
    DataFusionError,
>)
    ensures
        result == union_by_name_distinct_of(left, right),
{
    match LogicalPlanBuilder::from(left).union_by_name_distinct(right) {
        Ok(builder) => builder.build(),
        Err(error) => Err(error),
    }
}

/// Calls `LogicalPlanBuilder::intersect`. Trusted: the outcome depends on the
/// two plans and on `all` alone.
#[verifier::external_body]
pub(crate) fn intersect(left: LogicalPlan, right: LogicalPlan, all: bool) -> (result: Result<
    LogicalPlan,
    DataFusionError,
>)
    ensures
        result == intersect_of(left, right, all),
{
    LogicalPlanBuilder::intersect(left, right, all)
}

/// Calls `LogicalPlanBuilder::except`. Trusted: the outcome depends on the
/// two plans and on `all` alone.
#[verifier::external_body]
pub(crate) fn except(left: LogicalPlan, right: LogicalPlan, all: bool) -> (result: Result<
    LogicalPlan,
    DataFusionError,
>)
    ensures
        result == except_of(left, right, all),
{
    LogicalPlanBuilder::except(left, right, all)
}

/// Applies a combination to two plans.
pub fn build(combination: Combination, left: LogicalPlan, right: LogicalPlan) -> (result: Result<
    LogicalPlan,
    DataFusionError,
>)
    ensures
        result == built(combination, left, right),
{
    match combination {
        Combination::Union => union(left, right),
        Combination::UnionByName => union_by_name(left, right),
        Combination::UnionDistinct => union_distinct(left, right),
        Combination::UnionByNameDistinct => union_by_name_distinct(left, right),
        Combination::Intersect { all } => intersect(left, right, all),
        Combination::Except { all } => except(left, right, all),
    }
}

} // verus!
