use datafusion_expr::{lit, Expr, LogicalPlan, LogicalPlanBuilder};
use set_expr_planner::arity::{check_field_counts, validate_set_expr_num_of_columns};
use set_expr_planner::diagnostic::DiagnosticNote;
use set_expr_planner::error::PlanError;
use set_expr_planner::operator::SetOperator;
use set_expr_planner::span::{Location, Span};

fn span(from: u64, to: u64) -> Span {
    Span::new(Location { line: 1, column: from }, Location { line: 1, column: to })
}

fn plan_with_columns(columns: usize) -> LogicalPlan {
    let exprs: Vec<Expr> =
        (0..columns).map(|i| lit(i as i64).alias(format!("c{i}"))).collect();
    LogicalPlanBuilder::empty(true).project(exprs).unwrap().build().unwrap()
}

#[test]
fn equal_counts_pass() {
    for n in [0usize, 1, 3, 250] {
        let result = check_field_counts(SetOperator::Union, None, None, n, n, None);
        assert!(result.is_ok());
    }
}

#[test]
fn different_counts_give_a_plan_error_with_two_notes() {
    let result = check_field_counts(
        SetOperator::Union,
        Some(span(1, 12)),
        Some(span(19, 33)),
        2,
        3,
        Some(span(1, 33)),
    );
    match result {
        Err(PlanError::Plan(message, Some(diagnostic))) => {
            assert_eq!(message, "Union queries have different number of columns");
            assert_eq!(diagnostic.message, "Union queries have different number of columns");
            assert_eq!(diagnostic.span, Some(span(1, 33)));
            assert_eq!(
                diagnostic.notes,
                vec![
                    DiagnosticNote {
                        message: String::from("this side has 2 fields"),
                        span: Some(span(1, 12)),
                    },
                    DiagnosticNote {
                        message: String::from("this side has 3 fields"),
                        span: Some(span(19, 33)),
                    },
                ]
            );
        }
        other => panic!("expected a plan error with a diagnostic, got {other:?}"),
    }
}

#[test]
fn the_message_names_each_operator() {
    let cases = [
        (SetOperator::Union, "Union queries have different number of columns"),
        (SetOperator::Intersect, "Intersect queries have different number of columns"),
        (SetOperator::Except, "Except queries have different number of columns"),
    ];
    for (op, expected) in cases {
        match check_field_counts(op, None, None, 1, 0, None) {
            Err(PlanError::Plan(message, Some(diagnostic))) => {
                assert_eq!(message, expected);
                assert_eq!(diagnostic.message, expected);
                assert!(diagnostic.message.contains(op.name()));
            }
            other => panic!("expected a plan error with a diagnostic, got {other:?}"),
        }
    }
}

#[test]
fn notes_without_locations_still_carry_the_counts() {
    match check_field_counts(SetOperator::Except, None, None, 10, 0, None) {
        Err(PlanError::Plan(_, Some(diagnostic))) => {
            assert_eq!(diagnostic.span, None);
            assert_eq!(diagnostic.notes.len(), 2);
            assert_eq!(diagnostic.notes[0].message, "this side has 10 fields");
            assert_eq!(diagnostic.notes[0].span, None);
            assert_eq!(diagnostic.notes[1].message, "this side has 0 fields");
            assert_eq!(diagnostic.notes[1].span, None);
        }
        other => panic!("expected a plan error with a diagnostic, got {other:?}"),
    }
}

#[test]
fn validation_reads_the_field_counts_of_the_plans() {
    let two = plan_with_columns(2);
    let three = plan_with_columns(3);
    let result =
        validate_set_expr_num_of_columns(SetOperator::Union, None, None, &two, &three, None);
    match result {
        Err(PlanError::Plan(message, Some(diagnostic))) => {
            assert_eq!(message, "Union queries have different number of columns");
            assert_eq!(diagnostic.notes[0].message, "this side has 2 fields");
            assert_eq!(diagnostic.notes[1].message, "this side has 3 fields");
        }
        other => panic!("expected a plan error with a diagnostic, got {other:?}"),
    }
    let reversed =
        validate_set_expr_num_of_columns(SetOperator::Union, None, None, &three, &two, None);
    match reversed {
        Err(PlanError::Plan(_, Some(diagnostic))) => {
            assert_eq!(diagnostic.notes[0].message, "this side has 3 fields");
            assert_eq!(diagnostic.notes[1].message, "this side has 2 fields");
        }
        other => panic!("expected a plan error with a diagnostic, got {other:?}"),
    }
}

#[test]
fn validation_passes_plans_of_equal_width() {
    let left = plan_with_columns(3);
    let right = plan_with_columns(3);
    assert!(validate_set_expr_num_of_columns(
        SetOperator::Intersect,
        None,
        None,
        &left,
        &right,
        None
    )
    .is_ok());
    let empty_left = plan_with_columns(0);
    let empty_right = plan_with_columns(0);
    assert!(validate_set_expr_num_of_columns(
        SetOperator::Except,
        None,
        None,
        &empty_left,
        &empty_right,
        None
    )
    .is_ok());
}
