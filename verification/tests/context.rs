use set_expr_planner::context::PlannerContext;

#[test]
fn new_context_is_at_depth_zero_without_maximum() {
    let context = PlannerContext::new();
    assert_eq!(context.depth, 0);
    assert_eq!(context.max_depth, None);
}

#[test]
fn with_max_depth_sets_the_maximum() {
    let context = PlannerContext::with_max_depth(3);
    assert_eq!(context.depth, 0);
    assert_eq!(context.max_depth, Some(3));
}

#[test]
fn descend_goes_one_level_deeper() {
    let context = PlannerContext::new();
    assert_eq!(context.descend(), Some(PlannerContext { depth: 1, max_depth: None }));
    assert_eq!(context, PlannerContext { depth: 0, max_depth: None });
}

#[test]
fn descend_stops_at_the_configured_maximum() {
    let context = PlannerContext::with_max_depth(2);
    let one = context.descend().unwrap();
    assert_eq!(one, PlannerContext { depth: 1, max_depth: Some(2) });
    let two = one.descend().unwrap();
    assert_eq!(two, PlannerContext { depth: 2, max_depth: Some(2) });
    assert_eq!(two.descend(), None);
}

#[test]
fn descend_with_maximum_zero_never_enters() {
    assert_eq!(PlannerContext::with_max_depth(0).descend(), None);
}

#[test]
fn descend_stops_where_the_count_would_overflow() {
    let context = PlannerContext { depth: usize::MAX, max_depth: None };
    assert_eq!(context.descend(), None);
    let before = PlannerContext { depth: usize::MAX - 1, max_depth: None };
    assert_eq!(before.descend(), Some(PlannerContext { depth: usize::MAX, max_depth: None }));
}
