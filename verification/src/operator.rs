//! Set operators, their quantifiers, and the combinations the planner builds.

use vstd::prelude::*;

verus! {

/// The operator of a set operation.
#[derive(Clone, Copy, Debug, PartialEq, Eq, Structural)]
pub enum SetOperator {
    Union,
    Intersect,
    Except,
}

/// The modifier of a set operation: whether duplicate rows stay, and whether
/// columns are matched by position or by name.
#[derive(Clone, Copy, Debug, PartialEq, Eq, Structural)]
pub enum SetQuantifier {
    All,
    Distinct,
    ByName,
    AllByName,
    DistinctByName,
    /// No quantifier was written. Set operations treat it as `Distinct`.
    Unspecified,
}

/// A way of combining two plans into one.
#[derive(Clone, Copy, Debug, PartialEq, Eq, Structural)]
pub enum Combination {
    /// Union by position; duplicate rows stay.
    Union,
    /// Union with columns matched by name; duplicate rows stay.
    UnionByName,
    /// Union by position; duplicate rows are removed.
    UnionDistinct,
    /// Union with columns matched by name; duplicate rows are removed.
    UnionByNameDistinct,
    /// Intersection; with `all`, a row keeps its multiplicity.
    Intersect { all: bool },
    /// Difference; with `all`, a row keeps its multiplicity.
    Except { all: bool },
}

impl SetOperator {
    /// The operator's name as messages write it.
    pub open spec fn name_spec(self) -> Seq<char> {
        match self {
            SetOperator::Union => "Union"@,
            SetOperator::Intersect => "Intersect"@,
            SetOperator::Except => "Except"@,
        }
    }

    /// The operator's name as messages write it.
    pub fn name(self) -> (name: &'static str)
        ensures
            name@ == self.name_spec(),
    {
        match self {
            SetOperator::Union => "Union",
            SetOperator::Intersect => "Intersect",
            SetOperator::Except => "Except",
        }
    }
}

impl SetQuantifier {
    /// The quantifier's name as messages write it.
    pub open spec fn name_spec(self) -> Seq<char> {
        match self {
            SetQuantifier::All => "All"@,
            SetQuantifier::Distinct => "Distinct"@,
            SetQuantifier::ByName => "ByName"@,
            SetQuantifier::AllByName => "AllByName"@,
            SetQuantifier::DistinctByName => "DistinctByName"@,
            SetQuantifier::Unspecified => "None"@,
        }
    }

    /// The quantifier's name as messages write it.
    pub fn name(self) -> (name: &'static str)
        ensures
            name@ == self.name_spec(),
    {
        match self {
            SetQuantifier::All => "All",
            SetQuantifier::Distinct => "Distinct",
            SetQuantifier::ByName => "ByName",
            SetQuantifier::AllByName => "AllByName",
            SetQuantifier::DistinctByName => "DistinctByName",
            SetQuantifier::Unspecified => "None",
        }
    }

    /// Whether a set operation with this quantifier keeps duplicate rows.
    pub open spec fn keeps_duplicates(self) -> bool {
        self == SetQuantifier::All || self == SetQuantifier::AllByName
    }

    /// Whether the quantifier matches columns by name rather than by position.
    pub open spec fn matches_by_name(self) -> bool {
        self == SetQuantifier::ByName || self == SetQuantifier::AllByName || self
            == SetQuantifier::DistinctByName
    }

    /// Tells whether the quantifier matches columns by name.
    pub fn is_by_name(self) -> (by_name: bool)
        ensures
            by_name == self.matches_by_name(),
    {
        match self {
            SetQuantifier::ByName
            | SetQuantifier::AllByName
            | SetQuantifier::DistinctByName => true,
            SetQuantifier::All | SetQuantifier::Distinct | SetQuantifier::Unspecified => false,
        }
    }
}

/// Tells whether a set operation with this quantifier keeps duplicate rows:
/// `true` for `All` and `AllByName`, `false` for the other four.
pub fn is_union_all(set_quantifier: SetQuantifier) -> (all: bool)
    ensures
        all == set_quantifier.keeps_duplicates(),
{
    match set_quantifier {
        SetQuantifier::All | SetQuantifier::AllByName => true,
        SetQuantifier::Distinct
        | SetQuantifier::ByName
        | SetQuantifier::DistinctByName
        | SetQuantifier::Unspecified => false,
    }
}

/// The table of supported set operations.
///
/// `Union` takes every quantifier. `Intersect` and `Except` match columns by
/// position only, so they have no combination for a quantifier that matches
/// by name. A quantifier that was left out counts as `Distinct`.
pub open spec fn combination_for(op: SetOperator, quantifier: SetQuantifier) -> Option<
    Combination,
> {
    match (op, quantifier) {
        (SetOperator::Union, SetQuantifier::All) => Some(Combination::Union),
        (SetOperator::Union, SetQuantifier::AllByName) => Some(Combination::UnionByName),
        (SetOperator::Union, SetQuantifier::Distinct) => Some(Combination::UnionDistinct),
        (SetOperator::Union, SetQuantifier::Unspecified) => Some(Combination::UnionDistinct),
        (SetOperator::Union, SetQuantifier::ByName) => Some(Combination::UnionByNameDistinct),
        (SetOperator::Union, SetQuantifier::DistinctByName) => Some(
            Combination::UnionByNameDistinct,
        ),
        (SetOperator::Intersect, SetQuantifier::All) => Some(Combination::Intersect { all: true }),
        (SetOperator::Intersect, SetQuantifier::Distinct) => Some(
            Combination::Intersect { all: false },
        ),
        (SetOperator::Intersect, SetQuantifier::Unspecified) => Some(
            Combination::Intersect { all: false },
        ),
        (SetOperator::Except, SetQuantifier::All) => Some(Combination::Except { all: true }),
        (SetOperator::Except, SetQuantifier::Distinct) => Some(Combination::Except { all: false }),
        (SetOperator::Except, SetQuantifier::Unspecified) => Some(
            Combination::Except { all: false },
        ),
        _ => None,
    }
}

/// Looks up the combination for an operator and a quantifier.
pub fn select_combination(op: SetOperator, quantifier: SetQuantifier) -> (combination: Option<
    Combination,
>)
    ensures
        combination == combination_for(op, quantifier),
{
    match op {
        SetOperator::Union => match quantifier {
            SetQuantifier::All => Some(Combination::Union),
            SetQuantifier::AllByName => Some(Combination::UnionByName),
            SetQuantifier::Distinct | SetQuantifier::Unspecified => Some(
                Combination::UnionDistinct,
            ),
            SetQuantifier::ByName | SetQuantifier::DistinctByName => Some(
                Combination::UnionByNameDistinct,
            ),
        },
        SetOperator::Intersect => match quantifier {
            SetQuantifier::All => Some(Combination::Intersect { all: true }),
            SetQuantifier::Distinct | SetQuantifier::Unspecified => Some(
                Combination::Intersect { all: false },
            ),
            _ => None,
        },
        SetOperator::Except => match quantifier {
            SetQuantifier::All => Some(Combination::Except { all: true }),
            SetQuantifier::Distinct | SetQuantifier::Unspecified => Some(
                Combination::Except { all: false },
            ),
            _ => None,
        },
    }
}

/// Every operator has a combination for every quantifier that matches by
/// position. Only `Union` has one for a quantifier that matches by name.
pub proof fn lemma_combination_exists(op: SetOperator, quantifier: SetQuantifier)
    ensures
        combination_for(op, quantifier) is Some <==> (op == SetOperator::Union
            || !quantifier.matches_by_name()),
{
}

/// The combination keeps duplicate rows exactly when the quantifier does.
pub proof fn lemma_combination_keeps_duplicates(op: SetOperator, quantifier: SetQuantifier)
    requires
        combination_for(op, quantifier) is Some,
    ensures
        quantifier.keeps_duplicates() <==> (match combination_for(op, quantifier)->Some_0 {
            Combination::Union | Combination::UnionByName => true,
            Combination::UnionDistinct | Combination::UnionByNameDistinct => false,
            Combination::Intersect { all } => all,
            Combination::Except { all } => all,
        }),
{
}

} // verus!
