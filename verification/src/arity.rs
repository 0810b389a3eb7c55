//! The check that two plans combined by position have as many columns as
//! each other, and the diagnostic for when they do not.

use crate::diagnostic::{Diagnostic, DiagnosticView, NoteView};
use crate::error::{outcome, PlanError, PlanErrorView};
use crate::operator::SetOperator;
use crate::plan::{field_count, schema_width};
use crate::span::Span;
use crate::text::{decimal, decimal_string};
use datafusion_expr::LogicalPlan;
use vstd::prelude::*;
use vstd::string::StringExecFns;

verus! {

/// The message for two sides with different numbers of columns. It begins
/// with the operator's name.
pub open spec fn arity_message(op: SetOperator) -> Seq<char> {
    op.name_spec() + " queries have different number of columns"@
}

/// The note that tells how many fields one side has.
pub open spec fn side_note(fields: nat, span: Option<Span>) -> NoteView {
    NoteView { message: "this side has "@ + decimal(fields) + " fields"@, span }
}

/// The error for two sides with different numbers of columns: the message,
/// and a diagnostic that repeats it at the place of the whole operation, with
/// a note at the left side and a note at the right side.
pub open spec fn arity_mismatch(
    op: SetOperator,
    left_span: Option<Span>,
    right_span: Option<Span>,
    left_fields: nat,
    right_fields: nat,
    set_expr_span: Option<Span>,
) -> PlanErrorView {
    PlanErrorView::Plan(
        arity_message(op),
        Some(
            DiagnosticView {
                message: arity_message(op),
                span: set_expr_span,
                notes: seq![side_note(left_fields, left_span), side_note(right_fields, right_span)],
            },
        ),
    )
}

/// What the check of the two field counts comes to.
pub open spec fn arity_checked(
    op: SetOperator,
    left_span: Option<Span>,
    right_span: Option<Span>,
    left_fields: nat,
    right_fields: nat,
    set_expr_span: Option<Span>,
) -> Result<(), PlanErrorView> {
    if left_fields == right_fields {
        Ok(())
    } else {
        Err(arity_mismatch(op, left_span, right_span, left_fields, right_fields, set_expr_span))
    }
}

fn arity_message_text(op: SetOperator) -> (message: String)
    ensures
        message@ == arity_message(op),
{
    String::from_str(op.name()).concat(" queries have different number of columns")
}

fn side_note_text(fields: usize) -> (message: String)
    ensures
        message@ == "this side has "@ + decimal(fields as nat) + " fields"@,
{
    let mut message = String::from_str("this side has ");
    let count = decimal_string(fields);
    message.append(count.as_str());
    message.append(" fields");
    message
}

/// Compares the field counts of the two sides of a set operation.
///
/// Equal counts pass. Different counts give a `Plan` error for the operator,
/// whose diagnostic points at the whole operation and notes each side's count
/// at that side.
pub fn check_field_counts(
    op: SetOperator,
    left_span: Option<Span>,
    right_span: Option<Span>,
    left_fields: usize,
    right_fields: usize,
    set_expr_span: Option<Span>,
) -> (result: Result<(), PlanError>)
    ensures
        outcome(result) == arity_checked(
            op,
            left_span,
            right_span,
            left_fields as nat,
            right_fields as nat,
            set_expr_span,
        ),
{
    if left_fields == right_fields {
        return Ok(());
    }
    let diagnostic = Diagnostic::new_error(arity_message_text(op), set_expr_span).with_note(
        side_note_text(left_fields),
        left_span,
    ).with_note(side_note_text(right_fields), right_span);
    assert(diagnostic@.notes =~= seq![
        side_note(left_fields as nat, left_span),
        side_note(right_fields as nat, right_span),
    ]);
    Err(PlanError::Plan(arity_message_text(op), Some(diagnostic)))
}

/// Checks that the plans of the two sides of a set operation have the same
/// number of columns, as combining them by position requires.
pub fn validate_set_expr_num_of_columns(
    op: SetOperator,
    left_span: Option<Span>,
    right_span: Option<Span>,
    left_plan: &LogicalPlan,
    right_plan: &LogicalPlan,
    set_expr_span: Option<Span>,
) -> (result: Result<(), PlanError>)
    ensures
        outcome(result) == arity_checked(
            op,
            left_span,
            right_span,
            schema_width(*left_plan),
            schema_width(*right_plan),
            set_expr_span,
        ),
{
    check_field_counts(
        op,
        left_span,
        right_span,
        field_count(left_plan),
        field_count(right_plan),
        set_expr_span,
    )
}

} // verus!
