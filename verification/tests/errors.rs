use set_expr_planner::error::PlanError;

#[test]
fn collection_of_holds_left_then_right() {
    let error = PlanError::collection_of(
        PlanError::NotImplemented(String::from("left")),
        PlanError::RecursionLimitExceeded,
    );
    match error {
        PlanError::Collection(errors) => {
            assert_eq!(errors.len(), 2);
            assert!(matches!(&errors[0], PlanError::NotImplemented(text) if text == "left"));
            assert!(matches!(&errors[1], PlanError::RecursionLimitExceeded));
        }
        other => panic!("expected a collection, got {other:?}"),
    }
}
