use datafusion_common::DataFusionError;
use datafusion_expr::{lit, Distinct, Expr, JoinType, LogicalPlan, LogicalPlanBuilder};
use set_expr_planner::dispatch::{plan_or_error, set_operation_to_plan};
use set_expr_planner::error::PlanError;
use set_expr_planner::operator::{Combination, SetOperator, SetQuantifier};
use set_expr_planner::plan::build;

fn plan_with_names(names: &[&str]) -> LogicalPlan {
    let exprs: Vec<Expr> =
        names.iter().enumerate().map(|(i, name)| lit(i as i64).alias(*name)).collect();
    LogicalPlanBuilder::empty(true).project(exprs).unwrap().build().unwrap()
}

fn width(plan: &LogicalPlan) -> usize {
    plan.schema().fields().len()
}

fn field_names(plan: &LogicalPlan) -> Vec<String> {
    plan.schema().fields().iter().map(|f| f.name().clone()).collect()
}

fn abc() -> LogicalPlan {
    plan_with_names(&["a", "b", "c"])
}

fn xyz() -> LogicalPlan {
    plan_with_names(&["x", "y", "z"])
}

#[test]
fn union_all_keeps_duplicates() {
    let plan =
        set_operation_to_plan(SetOperator::Union, abc(), xyz(), SetQuantifier::All).unwrap();
    match &plan {
        LogicalPlan::Union(union) => {
            assert_eq!(union.inputs.len(), 2);
            assert_eq!(field_names(&union.inputs[0]), ["a", "b", "c"]);
            assert_eq!(field_names(&union.inputs[1]), ["x", "y", "z"]);
        }
        other => panic!("expected a union, got {other:?}"),
    }
    assert_eq!(width(&plan), 3);
    assert_eq!(field_names(&plan), ["a", "b", "c"]);
}

#[test]
fn union_distinct_removes_duplicates() {
    for quantifier in [SetQuantifier::Distinct, SetQuantifier::Unspecified] {
        let plan = set_operation_to_plan(SetOperator::Union, abc(), xyz(), quantifier).unwrap();
        match &plan {
            LogicalPlan::Distinct(Distinct::All(input)) => {
                assert!(matches!(input.as_ref(), LogicalPlan::Union(_)));
            }
            other => panic!("expected a distinct union, got {other:?}"),
        }
        assert_eq!(width(&plan), 3);
    }
}

#[test]
fn union_all_by_name_matches_columns_by_name() {
    let left = plan_with_names(&["a", "b"]);
    let right = plan_with_names(&["b", "c"]);
    let plan =
        set_operation_to_plan(SetOperator::Union, left, right, SetQuantifier::AllByName).unwrap();
    assert!(matches!(plan, LogicalPlan::Union(_)));
    assert_eq!(field_names(&plan), ["a", "b", "c"]);
}

#[test]
fn union_by_name_removes_duplicates() {
    for quantifier in [SetQuantifier::ByName, SetQuantifier::DistinctByName] {
        let left = plan_with_names(&["a", "b"]);
        let right = plan_with_names(&["b", "c"]);
        let plan = set_operation_to_plan(SetOperator::Union, left, right, quantifier).unwrap();
        match &plan {
            LogicalPlan::Distinct(Distinct::All(input)) => {
                assert!(matches!(input.as_ref(), LogicalPlan::Union(_)));
            }
            other => panic!("expected a distinct union, got {other:?}"),
        }
        assert_eq!(field_names(&plan), ["a", "b", "c"]);
    }
}

#[test]
fn intersect_all_keeps_multiplicities() {
    let plan =
        set_operation_to_plan(SetOperator::Intersect, abc(), abc(), SetQuantifier::All).unwrap();
    match &plan {
        LogicalPlan::Join(join) => {
            assert_eq!(join.join_type, JoinType::LeftSemi);
            assert!(!matches!(join.left.as_ref(), LogicalPlan::Distinct(_)));
        }
        other => panic!("expected a join, got {other:?}"),
    }
    assert_eq!(width(&plan), 3);
}

#[test]
fn intersect_distinct_removes_duplicates() {
    for quantifier in [SetQuantifier::Distinct, SetQuantifier::Unspecified] {
        let plan = set_operation_to_plan(SetOperator::Intersect, abc(), abc(), quantifier).unwrap();
        match &plan {
            LogicalPlan::Join(join) => {
                assert_eq!(join.join_type, JoinType::LeftSemi);
                assert!(matches!(join.left.as_ref(), LogicalPlan::Distinct(_)));
            }
            other => panic!("expected a join, got {other:?}"),
        }
    }
}

#[test]
fn except_all_keeps_multiplicities() {
    let plan =
        set_operation_to_plan(SetOperator::Except, abc(), abc(), SetQuantifier::All).unwrap();
    match &plan {
        LogicalPlan::Join(join) => {
            assert_eq!(join.join_type, JoinType::LeftAnti);
            assert!(!matches!(join.left.as_ref(), LogicalPlan::Distinct(_)));
        }
        other => panic!("expected a join, got {other:?}"),
    }
    assert_eq!(width(&plan), 3);
}

#[test]
fn except_distinct_removes_duplicates() {
    for quantifier in [SetQuantifier::Distinct, SetQuantifier::Unspecified] {
        let plan = set_operation_to_plan(SetOperator::Except, abc(), abc(), quantifier).unwrap();
        match &plan {
            LogicalPlan::Join(join) => {
                assert_eq!(join.join_type, JoinType::LeftAnti);
                assert!(matches!(join.left.as_ref(), LogicalPlan::Distinct(_)));
            }
            other => panic!("expected a join, got {other:?}"),
        }
    }
}

#[test]
fn intersect_and_except_by_name_are_not_implemented() {
    let cases = [
        (SetOperator::Intersect, SetQuantifier::ByName, "Intersect ByName not implemented"),
        (SetOperator::Intersect, SetQuantifier::AllByName, "Intersect AllByName not implemented"),
        (
            SetOperator::Intersect,
            SetQuantifier::DistinctByName,
            "Intersect DistinctByName not implemented",
        ),
        (SetOperator::Except, SetQuantifier::ByName, "Except ByName not implemented"),
        (SetOperator::Except, SetQuantifier::AllByName, "Except AllByName not implemented"),
        (
            SetOperator::Except,
            SetQuantifier::DistinctByName,
            "Except DistinctByName not implemented",
        ),
    ];
    for (op, quantifier, expected) in cases {
        match set_operation_to_plan(op, abc(), abc(), quantifier) {
            Err(PlanError::NotImplemented(text)) => assert_eq!(text, expected),
            other => panic!("expected a not-implemented error, got {other:?}"),
        }
    }
}

#[test]
fn an_error_of_the_builder_is_handed_on() {
    let two = plan_with_names(&["a", "b"]);
    match set_operation_to_plan(SetOperator::Union, two, abc(), SetQuantifier::All) {
        Err(PlanError::External(DataFusionError::Plan(message))) => {
            assert!(message.starts_with("UNION queries have different number of columns"));
        }
        other => panic!("expected the builder's error, got {other:?}"),
    }
    let two = plan_with_names(&["a", "b"]);
    match set_operation_to_plan(SetOperator::Intersect, two, abc(), SetQuantifier::All) {
        Err(PlanError::External(DataFusionError::Plan(message))) => {
            assert!(message.starts_with("INTERSECT/EXCEPT query must have the same number"));
        }
        other => panic!("expected the builder's error, got {other:?}"),
    }
}

#[test]
fn plan_or_error_hands_on_both_outcomes() {
    match plan_or_error(Ok(abc())) {
        Ok(plan) => assert_eq!(field_names(&plan), ["a", "b", "c"]),
        other => panic!("expected the plan, got {other:?}"),
    }
    let error = DataFusionError::Internal(String::from("boom"));
    match plan_or_error(Err(error)) {
        Err(PlanError::External(DataFusionError::Internal(message))) => {
            assert_eq!(message, "boom")
        }
        other => panic!("expected the error, got {other:?}"),
    }
}

#[test]
fn build_applies_each_combination() {
    assert!(matches!(build(Combination::Union, abc(), xyz()), Ok(LogicalPlan::Union(_))));
    assert!(matches!(build(Combination::UnionByName, abc(), xyz()), Ok(LogicalPlan::Union(_))));
    assert!(matches!(
        build(Combination::UnionDistinct, abc(), xyz()),
        Ok(LogicalPlan::Distinct(_))
    ));
    assert!(matches!(
        build(Combination::UnionByNameDistinct, abc(), xyz()),
        Ok(LogicalPlan::Distinct(_))
    ));
    assert!(matches!(
        build(Combination::Intersect { all: true }, abc(), abc()),
        Ok(LogicalPlan::Join(_))
    ));
    assert!(matches!(
        build(Combination::Except { all: false }, abc(), abc()),
        Ok(LogicalPlan::Join(_))
    ));
    let by_name = build(Combination::UnionByName, abc(), xyz()).unwrap();
    assert_eq!(width(&by_name), 6);
}
