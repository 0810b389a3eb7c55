//! What holds of every translation, stated over the functions that specify
//! it and proved from their definitions.

use crate::arity::{arity_mismatch, side_note};
use crate::context::PlannerContext;
use crate::dispatch::{dispatched, handed_on, not_implemented_message};
use crate::error::{outcome, PlanError, PlanErrorView};
use crate::expr::{SetExpression, SetExpressionKind};
use crate::operator::{combination_for, SetOperator, SetQuantifier};
use crate::plan::{built, schema_width};
use crate::span::Span;
use crate::translate::{combined, planned_by, translates, unsupported_message, Planned};
use datafusion_expr::LogicalPlan;
use vstd::prelude::*;

verus! {

/// Where both sides of a set operation fail, the operation fails with the
/// two errors together, the left one first. Where one side fails, the
/// operation fails with that side's error and nothing else.
pub proof fn lemma_failures_are_kept(
    op: SetOperator,
    quantifier: SetQuantifier,
    left_span: Option<Span>,
    right_span: Option<Span>,
    set_expr_span: Option<Span>,
    left: Result<LogicalPlan, PlanErrorView>,
    right: Result<LogicalPlan, PlanErrorView>,
)
    ensures
        left is Err && right is Err ==> combined(
            op,
            quantifier,
            left_span,
            right_span,
            set_expr_span,
            left,
            right,
        ) == Err::<LogicalPlan, PlanErrorView>(
            PlanErrorView::Collection(seq![left->Err_0, right->Err_0]),
        ),
        left is Err && right is Ok ==> combined(
            op,
            quantifier,
            left_span,
            right_span,
            set_expr_span,
            left,
            right,
        ) == Err::<LogicalPlan, PlanErrorView>(left->Err_0),
        left is Ok && right is Err ==> combined(
            op,
            quantifier,
            left_span,
            right_span,
            set_expr_span,
            left,
            right,
        ) == Err::<LogicalPlan, PlanErrorView>(right->Err_0),
{
}

/// Two plans with different numbers of fields, under a quantifier that
/// matches columns by position, fail with a `Plan` error. Its diagnostic has
/// a message that begins with the operator's name, and two notes: the left
/// side's count at the left side, then the right side's count at the right
/// side.
pub proof fn lemma_arity_mismatch_is_reported(
    op: SetOperator,
    quantifier: SetQuantifier,
    left_span: Option<Span>,
    right_span: Option<Span>,
    set_expr_span: Option<Span>,
    left_plan: LogicalPlan,
    right_plan: LogicalPlan,
)
    requires
        !quantifier.matches_by_name(),
        schema_width(left_plan) != schema_width(right_plan),
    ensures
        combined(
            op,
            quantifier,
            left_span,
            right_span,
            set_expr_span,
            Ok(left_plan),
            Ok(right_plan),
        ) == Err::<LogicalPlan, PlanErrorView>(
            arity_mismatch(
                op,
                left_span,
                right_span,
                schema_width(left_plan),
                schema_width(right_plan),
                set_expr_span,
            ),
        ),
        arity_mismatch(
            op,
            left_span,
            right_span,
            schema_width(left_plan),
            schema_width(right_plan),
            set_expr_span,
        ) matches PlanErrorView::Plan(message, Some(diagnostic)) && {
            &&& message == diagnostic.message
            &&& diagnostic.message.subrange(0, op.name_spec().len() as int) == op.name_spec()
            &&& diagnostic.span == set_expr_span
            &&& diagnostic.notes.len() == 2
            &&& diagnostic.notes[0] == side_note(schema_width(left_plan), left_span)
            &&& diagnostic.notes[1] == side_note(schema_width(right_plan), right_span)
        },
{
}

/// Two plans with the same number of fields pass the check of their field
/// counts, and so do any two plans under a quantifier that matches columns by
/// name: what the operation comes to is then up to the dispatch alone.
pub proof fn lemma_matching_arity_is_dispatched(
    op: SetOperator,
    quantifier: SetQuantifier,
    left_span: Option<Span>,
    right_span: Option<Span>,
    set_expr_span: Option<Span>,
    left_plan: LogicalPlan,
    right_plan: LogicalPlan,
)
    requires
        quantifier.matches_by_name() || schema_width(left_plan) == schema_width(right_plan),
    ensures
        combined(
            op,
            quantifier,
            left_span,
            right_span,
            set_expr_span,
            Ok(left_plan),
            Ok(right_plan),
        ) == dispatched(op, quantifier, left_plan, right_plan),
{
}

/// The dispatch fails with `NotImplemented` exactly for `Intersect` and
/// `Except` under a quantifier that matches columns by name. For every other
/// pair it hands on what the builder makes of the two plans, plan or error.
pub proof fn lemma_only_union_matches_by_name(
    op: SetOperator,
    quantifier: SetQuantifier,
    left_plan: LogicalPlan,
    right_plan: LogicalPlan,
)
    ensures
        op != SetOperator::Union && quantifier.matches_by_name() ==> dispatched(
            op,
            quantifier,
            left_plan,
            right_plan,
        ) == Err::<LogicalPlan, PlanErrorView>(
            PlanErrorView::NotImplemented(not_implemented_message(op, quantifier)),
        ),
        op == SetOperator::Union || !quantifier.matches_by_name() ==> combination_for(
            op,
            quantifier,
        ) is Some && dispatched(op, quantifier, left_plan, right_plan) == handed_on(
            built(combination_for(op, quantifier)->Some_0, left_plan, right_plan),
        ),
{
}

/// A leaf comes to what its planner may come to for it, in the context of
/// the translation.
pub proof fn lemma_leaf_is_planned<S, V>(
    set_expr: SetExpression<S, V>,
    context: PlannerContext,
    selects: Planned<S>,
    values: Planned<V>,
    out: Result<LogicalPlan, PlanErrorView>,
)
    requires
        translates(set_expr, context, selects, values, out),
    ensures
        set_expr.kind matches SetExpressionKind::Select(select) ==> selects(select, context, out),
        set_expr.kind matches SetExpressionKind::Values(list) ==> values(list, context, out),
{
}

/// What a planner may come to holds of the outcome of every result that the
/// planner returns.
pub proof fn lemma_result_is_planned<A, P>(
    planner: P,
    clause: A,
    context: PlannerContext,
    planned: Result<LogicalPlan, PlanError>,
) where
    P: Fn(A, PlannerContext) -> Result<LogicalPlan, PlanError>,

    requires
        call_ensures(planner, (clause, context), planned),
    ensures
        planned_by(planner)(clause, context, outcome(planned)),
{
}

/// A set operation comes to what `combined` makes of an outcome of its left
/// side and an outcome of its right side, both translated in the context of
/// the operation.
pub proof fn lemma_set_operation_combines_its_sides<S, V>(
    set_expr: SetExpression<S, V>,
    context: PlannerContext,
    selects: Planned<S>,
    values: Planned<V>,
    out: Result<LogicalPlan, PlanErrorView>,
)
    requires
        translates(set_expr, context, selects, values, out),
        set_expr.kind is SetOperation,
    ensures
        set_expr.kind matches SetExpressionKind::SetOperation { operator, left, right, quantifier }
            && exists|
            left_out: Result<LogicalPlan, PlanErrorView>,
            right_out: Result<LogicalPlan, PlanErrorView>,
        |
            translates(*left, context, selects, values, left_out) && translates(
                *right,
                context,
                selects,
                values,
                right_out,
            ) && out == #[trigger] combined(
                operator,
                quantifier,
                left.span,
                right.span,
                set_expr.span,
                left_out,
                right_out,
            ),
{
}

/// Whatever the two sides of a set operation can come to, the operation can
/// come to what `combined` makes of it. No outcome of one side keeps the
/// other side from being translated.
pub proof fn lemma_sides_combine_into_set_operation<S, V>(
    set_expr: SetExpression<S, V>,
    context: PlannerContext,
    selects: Planned<S>,
    values: Planned<V>,
    left_out: Result<LogicalPlan, PlanErrorView>,
    right_out: Result<LogicalPlan, PlanErrorView>,
)
    requires
        set_expr.kind matches SetExpressionKind::SetOperation { left, right, .. } && translates(
            *left,
            context,
            selects,
            values,
            left_out,
        ) && translates(*right, context, selects, values, right_out),
    ensures
        set_expr.kind matches SetExpressionKind::SetOperation { operator, left, right, quantifier }
            && translates(
            set_expr,
            context,
            selects,
            values,
            combined(
                operator,
                quantifier,
                left.span,
                right.span,
                set_expr.span,
                left_out,
                right_out,
            ),
        ),
{
}

/// Where every translation of each side of a set operation fails, the
/// operation comes to the collection of an error of the left side and an
/// error of the right side, in that order.
pub proof fn lemma_two_failing_sides_are_collected<S, V>(
    set_expr: SetExpression<S, V>,
    context: PlannerContext,
    selects: Planned<S>,
    values: Planned<V>,
    out: Result<LogicalPlan, PlanErrorView>,
)
    requires
        translates(set_expr, context, selects, values, out),
        set_expr.kind is SetOperation,
        forall|left_out: Result<LogicalPlan, PlanErrorView>| #[trigger]
            translates(
                *set_expr.kind->left,
                context,
                selects,
                values,
                left_out,
            ) ==> left_out is Err,
        forall|right_out: Result<LogicalPlan, PlanErrorView>| #[trigger]
            translates(
                *set_expr.kind->right,
                context,
                selects,
                values,
                right_out,
            ) ==> right_out is Err,
    ensures
        exists|left_error: PlanErrorView, right_error: PlanErrorView|
            translates(
                *set_expr.kind->left,
                context,
                selects,
                values,
                Err(left_error),
            ) && translates(
                *set_expr.kind->right,
                context,
                selects,
                values,
                Err(right_error),
            ) && out == Err::<LogicalPlan, PlanErrorView>(
                PlanErrorView::Collection(#[trigger] seq![left_error, right_error]),
            ),
{
    lemma_set_operation_combines_its_sides(
        set_expr,
        context,
        selects,
        values,
        out,
    );
    let operator = set_expr.kind->operator;
    let quantifier = set_expr.kind->quantifier;
    let left = set_expr.kind->left;
    let right = set_expr.kind->right;
    let (left_out, right_out) = choose|
        left_out: Result<LogicalPlan, PlanErrorView>,
        right_out: Result<LogicalPlan, PlanErrorView>,
    |
        translates(*left, context, selects, values, left_out) && translates(
            *right,
            context,
            selects,
            values,
            right_out,
        ) && out == #[trigger] combined(
            operator,
            quantifier,
            left.span,
            right.span,
            set_expr.span,
            left_out,
            right_out,
        );
}

/// Where every translation of the left side of a set operation fails and
/// every translation of the right side gives a plan, the operation comes to
/// an error of the left side, as that side gave it.
pub proof fn lemma_failing_left_side_is_kept<S, V>(
    set_expr: SetExpression<S, V>,
    context: PlannerContext,
    selects: Planned<S>,
    values: Planned<V>,
    out: Result<LogicalPlan, PlanErrorView>,
)
    requires
        translates(set_expr, context, selects, values, out),
        set_expr.kind is SetOperation,
        forall|left_out: Result<LogicalPlan, PlanErrorView>| #[trigger]
            translates(
                *set_expr.kind->left,
                context,
                selects,
                values,
                left_out,
            ) ==> left_out is Err,
        forall|right_out: Result<LogicalPlan, PlanErrorView>| #[trigger]
            translates(
                *set_expr.kind->right,
                context,
                selects,
                values,
                right_out,
            ) ==> right_out is Ok,
    ensures
        out is Err,
        translates(*set_expr.kind->left, context, selects, values, out),
{
    lemma_set_operation_combines_its_sides(
        set_expr,
        context,
        selects,
        values,
        out,
    );
    let operator = set_expr.kind->operator;
    let quantifier = set_expr.kind->quantifier;
    let left = set_expr.kind->left;
    let right = set_expr.kind->right;
    let (left_out, right_out) = choose|
        left_out: Result<LogicalPlan, PlanErrorView>,
        right_out: Result<LogicalPlan, PlanErrorView>,
    |
        translates(*left, context, selects, values, left_out) && translates(
            *right,
            context,
            selects,
            values,
            right_out,
        ) && out == #[trigger] combined(
            operator,
            quantifier,
            left.span,
            right.span,
            set_expr.span,
            left_out,
            right_out,
        );
}

/// Where every translation of the right side of a set operation fails and
/// every translation of the left side gives a plan, the operation comes to
/// an error of the right side, as that side gave it.
pub proof fn lemma_failing_right_side_is_kept<S, V>(
    set_expr: SetExpression<S, V>,
    context: PlannerContext,
    selects: Planned<S>,
    values: Planned<V>,
    out: Result<LogicalPlan, PlanErrorView>,
)
    requires
        translates(set_expr, context, selects, values, out),
        set_expr.kind is SetOperation,
        forall|left_out: Result<LogicalPlan, PlanErrorView>| #[trigger]
            translates(
                *set_expr.kind->left,
                context,
                selects,
                values,
                left_out,
            ) ==> left_out is Ok,
        forall|right_out: Result<LogicalPlan, PlanErrorView>| #[trigger]
            translates(
                *set_expr.kind->right,
                context,
                selects,
                values,
                right_out,
            ) ==> right_out is Err,
    ensures
        out is Err,
        translates(*set_expr.kind->right, context, selects, values, out),
{
    lemma_set_operation_combines_its_sides(
        set_expr,
        context,
        selects,
        values,
        out,
    );
    let operator = set_expr.kind->operator;
    let quantifier = set_expr.kind->quantifier;
    let left = set_expr.kind->left;
    let right = set_expr.kind->right;
    let (left_out, right_out) = choose|
        left_out: Result<LogicalPlan, PlanErrorView>,
        right_out: Result<LogicalPlan, PlanErrorView>,
    |
        translates(*left, context, selects, values, left_out) && translates(
            *right,
            context,
            selects,
            values,
            right_out,
        ) && out == #[trigger] combined(
            operator,
            quantifier,
            left.span,
            right.span,
            set_expr.span,
            left_out,
            right_out,
        );
}

/// Where both sides of a set operation come to plans, the quantifier matches
/// columns by position, and the plans of the two sides never have the same
/// number of fields, the operation comes to the error that reports the two
/// numbers.
pub proof fn lemma_translation_reports_arity_mismatch<S, V>(
    set_expr: SetExpression<S, V>,
    context: PlannerContext,
    selects: Planned<S>,
    values: Planned<V>,
    out: Result<LogicalPlan, PlanErrorView>,
)
    requires
        translates(set_expr, context, selects, values, out),
        set_expr.kind is SetOperation,
        !set_expr.kind->quantifier.matches_by_name(),
        forall|left_out: Result<LogicalPlan, PlanErrorView>| #[trigger]
            translates(
                *set_expr.kind->left,
                context,
                selects,
                values,
                left_out,
            ) ==> left_out is Ok,
        forall|right_out: Result<LogicalPlan, PlanErrorView>| #[trigger]
            translates(
                *set_expr.kind->right,
                context,
                selects,
                values,
                right_out,
            ) ==> right_out is Ok,
        forall|left_plan: LogicalPlan, right_plan: LogicalPlan|
            #[trigger] translates(
                *set_expr.kind->left,
                context,
                selects,
                values,
                Ok(left_plan),
            ) && #[trigger] translates(
                *set_expr.kind->right,
                context,
                selects,
                values,
                Ok(right_plan),
            ) ==> schema_width(left_plan) != schema_width(right_plan),
    ensures
        exists|left_fields: nat, right_fields: nat|
            left_fields != right_fields && out == Err::<LogicalPlan, PlanErrorView>(
                #[trigger] arity_mismatch(
                    set_expr.kind->operator,
                    set_expr.kind->left.span,
                    set_expr.kind->right.span,
                    left_fields,
                    right_fields,
                    set_expr.span,
                ),
            ),
{
    lemma_set_operation_combines_its_sides(
        set_expr,
        context,
        selects,
        values,
        out,
    );
    let operator = set_expr.kind->operator;
    let quantifier = set_expr.kind->quantifier;
    let left = set_expr.kind->left;
    let right = set_expr.kind->right;
    let (left_out, right_out) = choose|
        left_out: Result<LogicalPlan, PlanErrorView>,
        right_out: Result<LogicalPlan, PlanErrorView>,
    |
        translates(*left, context, selects, values, left_out) && translates(
            *right,
            context,
            selects,
            values,
            right_out,
        ) && out == #[trigger] combined(
            operator,
            quantifier,
            left.span,
            right.span,
            set_expr.span,
            left_out,
            right_out,
        );
    lemma_arity_mismatch_is_reported(
        operator,
        quantifier,
        left.span,
        right.span,
        set_expr.span,
        left_out->Ok_0,
        right_out->Ok_0,
    );
}

/// A nested query comes to what its inner expression comes to one level
/// deeper. At the ceiling of the context it comes to
/// `RecursionLimitExceeded`, whatever is inside.
pub proof fn lemma_nested_query_descends<S, V>(
    set_expr: SetExpression<S, V>,
    context: PlannerContext,
    selects: Planned<S>,
    values: Planned<V>,
    out: Result<LogicalPlan, PlanErrorView>,
)
    requires
        translates(set_expr, context, selects, values, out),
        set_expr.kind is Query,
    ensures
        context.may_descend() ==> translates(
            *set_expr.kind->Query_0,
            context.deeper(),
            selects,
            values,
            out,
        ),
        !context.may_descend() ==> out == Err::<LogicalPlan, PlanErrorView>(
            PlanErrorView::RecursionLimitExceeded,
        ),
{
}

/// Whether a planner gives one answer for one input: what it may come to for
/// a clause in a context is one outcome at most.
pub open spec fn answers_alike<A>(plans: Planned<A>) -> bool {
    forall|
        clause: A,
        context: PlannerContext,
        first: Result<LogicalPlan, PlanErrorView>,
        second: Result<LogicalPlan, PlanErrorView>,
    |
        #[trigger] plans(clause, context, first) && #[trigger] plans(clause, context, second)
            ==> first == second
}

/// With planners that give one answer for one input, a set expression in a
/// context comes to one outcome: translating it again changes nothing.
pub proof fn lemma_translation_is_determined<S, V>(
    set_expr: SetExpression<S, V>,
    context: PlannerContext,
    selects: Planned<S>,
    values: Planned<V>,
    first: Result<LogicalPlan, PlanErrorView>,
    second: Result<LogicalPlan, PlanErrorView>,
)
    requires
        answers_alike(selects),
        answers_alike(values),
        translates(set_expr, context, selects, values, first),
        translates(set_expr, context, selects, values, second),
    ensures
        first == second,
    decreases set_expr,
{
    match set_expr.kind {
        SetExpressionKind::Select(select) => {},
        SetExpressionKind::Values(list) => {},
        SetExpressionKind::SetOperation { operator, left, right, quantifier } => {
            lemma_set_operation_combines_its_sides(
                set_expr,
                context,
                selects,
                values,
                first,
            );
            let (first_left, first_right) = choose|
                left_out: Result<LogicalPlan, PlanErrorView>,
                right_out: Result<LogicalPlan, PlanErrorView>,
            |
                translates(*left, context, selects, values, left_out)
                    && translates(*right, context, selects, values, right_out)
                    && first == #[trigger] combined(
                    operator,
                    quantifier,
                    left.span,
                    right.span,
                    set_expr.span,
                    left_out,
                    right_out,
                );
            lemma_set_operation_combines_its_sides(
                set_expr,
                context,
                selects,
                values,
                second,
            );
            let (second_left, second_right) = choose|
                left_out: Result<LogicalPlan, PlanErrorView>,
                right_out: Result<LogicalPlan, PlanErrorView>,
            |
                translates(*left, context, selects, values, left_out)
                    && translates(*right, context, selects, values, right_out)
                    && second == #[trigger] combined(
                    operator,
                    quantifier,
                    left.span,
                    right.span,
                    set_expr.span,
                    left_out,
                    right_out,
                );
            lemma_translation_is_determined(
                *left,
                context,
                selects,
                values,
                first_left,
                second_left,
            );
            lemma_translation_is_determined(
                *right,
                context,
                selects,
                values,
                first_right,
                second_right,
            );
        },
        SetExpressionKind::Query(inner) => {
            if context.may_descend() {
                lemma_translation_is_determined(
                    *inner,
                    context.deeper(),
                    selects,
                    values,
                    first,
                    second,
                );
            }
        },
        SetExpressionKind::Unsupported(description) => {},
    }
}

/// An unsupported kind of query comes to `NotImplemented` with the text that
/// names it, whatever the context and the planners.
pub proof fn lemma_unsupported_is_not_implemented<S, V>(
    set_expr: SetExpression<S, V>,
    context: PlannerContext,
    selects: Planned<S>,
    values: Planned<V>,
    out: Result<LogicalPlan, PlanErrorView>,
)
    requires
        translates(set_expr, context, selects, values, out),
        set_expr.kind is Unsupported,
    ensures
        out == Err::<LogicalPlan, PlanErrorView>(
            PlanErrorView::NotImplemented(unsupported_message(set_expr.kind->Unsupported_0@)),
        ),
{
}

} // verus!
