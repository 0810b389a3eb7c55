use set_expr_planner::operator::{
    is_union_all, select_combination, Combination, SetOperator, SetQuantifier,
};

const QUANTIFIERS: [SetQuantifier; 6] = [
    SetQuantifier::All,
    SetQuantifier::Distinct,
    SetQuantifier::ByName,
    SetQuantifier::AllByName,
    SetQuantifier::DistinctByName,
    SetQuantifier::Unspecified,
];

#[test]
fn is_union_all_is_true_for_all_and_all_by_name_only() {
    assert!(is_union_all(SetQuantifier::All));
    assert!(is_union_all(SetQuantifier::AllByName));
    assert!(!is_union_all(SetQuantifier::Distinct));
    assert!(!is_union_all(SetQuantifier::ByName));
    assert!(!is_union_all(SetQuantifier::DistinctByName));
    assert!(!is_union_all(SetQuantifier::Unspecified));
}

#[test]
fn by_name_family_has_three_members() {
    let by_name: Vec<SetQuantifier> =
        QUANTIFIERS.iter().copied().filter(|q| q.is_by_name()).collect();
    assert_eq!(
        by_name,
        vec![SetQuantifier::ByName, SetQuantifier::AllByName, SetQuantifier::DistinctByName]
    );
}

#[test]
fn operator_names() {
    assert_eq!(SetOperator::Union.name(), "Union");
    assert_eq!(SetOperator::Intersect.name(), "Intersect");
    assert_eq!(SetOperator::Except.name(), "Except");
}

#[test]
fn quantifier_names() {
    assert_eq!(SetQuantifier::All.name(), "All");
    assert_eq!(SetQuantifier::Distinct.name(), "Distinct");
    assert_eq!(SetQuantifier::ByName.name(), "ByName");
    assert_eq!(SetQuantifier::AllByName.name(), "AllByName");
    assert_eq!(SetQuantifier::DistinctByName.name(), "DistinctByName");
    assert_eq!(SetQuantifier::Unspecified.name(), "None");
}

#[test]
fn union_has_a_combination_for_every_quantifier() {
    let union = |q| select_combination(SetOperator::Union, q);
    assert_eq!(union(SetQuantifier::All), Some(Combination::Union));
    assert_eq!(union(SetQuantifier::AllByName), Some(Combination::UnionByName));
    assert_eq!(union(SetQuantifier::Distinct), Some(Combination::UnionDistinct));
    assert_eq!(union(SetQuantifier::Unspecified), Some(Combination::UnionDistinct));
    assert_eq!(union(SetQuantifier::ByName), Some(Combination::UnionByNameDistinct));
    assert_eq!(union(SetQuantifier::DistinctByName), Some(Combination::UnionByNameDistinct));
}

#[test]
fn intersect_and_except_combine_by_position_only() {
    let intersect = |q| select_combination(SetOperator::Intersect, q);
    assert_eq!(intersect(SetQuantifier::All), Some(Combination::Intersect { all: true }));
    assert_eq!(intersect(SetQuantifier::Distinct), Some(Combination::Intersect { all: false }));
    assert_eq!(intersect(SetQuantifier::Unspecified), Some(Combination::Intersect { all: false }));
    let except = |q| select_combination(SetOperator::Except, q);
    assert_eq!(except(SetQuantifier::All), Some(Combination::Except { all: true }));
    assert_eq!(except(SetQuantifier::Distinct), Some(Combination::Except { all: false }));
    assert_eq!(except(SetQuantifier::Unspecified), Some(Combination::Except { all: false }));
    for quantifier in
        [SetQuantifier::ByName, SetQuantifier::AllByName, SetQuantifier::DistinctByName]
    {
        assert_eq!(intersect(quantifier), None);
        assert_eq!(except(quantifier), None);
    }
}

#[test]
fn a_combination_keeps_duplicates_when_the_quantifier_does() {
    for op in [SetOperator::Union, SetOperator::Intersect, SetOperator::Except] {
        for quantifier in QUANTIFIERS {
            let keeps = match select_combination(op, quantifier) {
                Some(Combination::Union) | Some(Combination::UnionByName) => true,
                Some(Combination::UnionDistinct) | Some(Combination::UnionByNameDistinct) => false,
                Some(Combination::Intersect { all }) | Some(Combination::Except { all }) => all,
                None => continue,
            };
            assert_eq!(keeps, is_union_all(quantifier));
        }
    }
}
