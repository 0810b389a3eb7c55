//! The state that planning threads through nested queries.

use vstd::prelude::*;

verus! {

/// How deep planning has gone into nested queries, and how deep it may go.
///
/// Each planning run has a context of its own. Planning a nested query works
/// on a copy that is one level deeper, so the caller's context stands as it
/// was when the nested query is done.
#[derive(Clone, Copy, Debug, PartialEq, Eq, Structural)]
pub struct PlannerContext {
    /// The number of nested queries entered and not yet left.
    pub depth: usize,
    /// The largest depth that planning may reach, where one is configured.
    pub max_depth: Option<usize>,
}

impl PlannerContext {
    /// The depth that planning cannot go beyond: the configured maximum, or
    /// the largest count the machine holds.
    pub open spec fn ceiling(self) -> nat {
        match self.max_depth {
            Some(max_depth) => max_depth as nat,
            None => usize::MAX as nat,
        }
    }

    /// Whether planning may enter one more nested query.
    pub open spec fn may_descend(self) -> bool {
        self.depth < self.ceiling()
    }

    /// The context one level deeper.
    pub open spec fn deeper(self) -> PlannerContext
        recommends
            self.may_descend(),
    {
        PlannerContext { depth: (self.depth + 1) as usize, max_depth: self.max_depth }
    }

    /// A context at depth zero with no configured maximum.
    pub fn new() -> (context: PlannerContext)
        ensures
            context == (PlannerContext { depth: 0, max_depth: None }),
    {
        PlannerContext { depth: 0, max_depth: None }
    }

    /// A context at depth zero that lets planning go `max_depth` deep.
    pub fn with_max_depth(max_depth: usize) -> (context: PlannerContext)
        ensures
            context == (PlannerContext { depth: 0, max_depth: Some(max_depth) }),
    {
        PlannerContext { depth: 0, max_depth: Some(max_depth) }
    }

    /// Enters a nested query: the context one level deeper, or `None` where
    /// that would go beyond the ceiling.
    pub fn descend(self) -> (entered: Option<PlannerContext>)
        ensures
            entered == (if self.may_descend() {
                Some(self.deeper())
            } else {
                None
            }),
    {
        let ceiling = match self.max_depth {
            Some(max_depth) => max_depth,
            None => usize::MAX,
        };
        if self.depth < ceiling {
            Some(PlannerContext { depth: self.depth + 1, max_depth: self.max_depth })
        } else {
            None
        }
    }
}

} // verus!
