//! The errors that planning a set expression can end in.

use crate::diagnostic::{Diagnostic, DiagnosticView};
use datafusion_common::DataFusionError;
use vstd::prelude::*;

verus! {

/// Why a set expression could not be turned into a plan.
#[derive(Debug)]
pub enum PlanError {
    /// The query uses a construct, or a combination of set operator and
    /// quantifier, that the planner does not support. The text names it.
    NotImplemented(String),
    /// The query is malformed. The diagnostic, where there is one, locates
    /// the defect in the query text.
    Plan(String, Option<Diagnostic>),
    /// Both sides of a set operation failed, each for its own reason: the
    /// error of the left side, then that of the right side.
    Collection(Vec<PlanError>),
    /// Nested queries went deeper than the configured ceiling.
    RecursionLimitExceeded,
    /// An error that the query engine raised, in the plan builder or in a
    /// planner of the caller, handed on as it came.
    External(DataFusionError),
}

/// What an error says, as a mathematical value.
pub enum PlanErrorView {
    NotImplemented(Seq<char>),
    Plan(Seq<char>, Option<DiagnosticView>),
    Collection(Seq<PlanErrorView>),
    RecursionLimitExceeded,
    External(DataFusionError),
}

impl View for PlanError {
    type V = PlanErrorView;

    open spec fn view(&self) -> PlanErrorView
        decreases self,
    {
        match self {
            PlanError::NotImplemented(text) => PlanErrorView::NotImplemented(text@),
            PlanError::Plan(message, diagnostic) => PlanErrorView::Plan(
                message@,
                match diagnostic {
                    Some(diagnostic) => Some(diagnostic@),
                    None => None,
                },
            ),
            PlanError::Collection(errors) => PlanErrorView::Collection(
                Seq::new(
                    errors.len() as nat,
                    |i: int|
                        if 0 <= i < errors.len() {
                            errors[i]@
                        } else {
                            arbitrary()
                        },
                ),
            ),
            PlanError::RecursionLimitExceeded => PlanErrorView::RecursionLimitExceeded,
            PlanError::External(error) => PlanErrorView::External(*error),
        }
    }
}

/// A result with its error, where it has one, as a mathematical value.
pub open spec fn outcome<T>(result: Result<T, PlanError>) -> Result<T, PlanErrorView> {
    match result {
        Ok(value) => Ok(value),
        Err(error) => Err(error@),
    }
}

impl PlanError {
    /// The error that reports the two failures of a set operation together.
    pub fn collection_of(left: PlanError, right: PlanError) -> (error: PlanError)
        ensures
            error@ == PlanErrorView::Collection(seq![left@, right@]),
    {
        let mut errors: Vec<PlanError> = Vec::new();
        errors.push(left);
        errors.push(right);
        let error = PlanError::Collection(errors);
        assert(error@->Collection_0 =~= seq![left@, right@]);
        error
    }
}

} // verus!
