use tristate::TriState;

#[test]
fn from_bool_true_is_yes() {
    let t = TriState::from(true);
    assert!(t.yes());
    assert!(!t.no());
    assert!(!t.unknown());
    assert_eq!(t, TriState::Yes);
}

#[test]
fn from_bool_false_is_no() {
    let t = TriState::from(false);
    assert!(!t.yes());
    assert!(t.no());
    assert!(!t.unknown());
    assert_eq!(t, TriState::No);
}

#[test]
fn from_bool_never_unknown() {
    assert_ne!(TriState::from(true), TriState::Unknown);
    assert_ne!(TriState::from(false), TriState::Unknown);
}

#[test]
fn from_absent_is_unknown() {
    let t = TriState::from(None::<bool>);
    assert!(t.maybe());
    assert_eq!(t.to_bool(), None);
}

#[test]
fn from_present_false_is_definitely_not() {
    let t = TriState::from(Some(false));
    assert!(t.definitely_not());
}

#[test]
fn exactly_one_query_holds_per_variant() {
    let all = [TriState::Yes, TriState::No, TriState::Unknown];
    for v in all {
        let hits = [v.yes(), v.no(), v.unknown()];
        let count = hits.iter().filter(|&&h| h).count();
        assert_eq!(count, 1);
    }
    assert!(TriState::Yes.yes());
    assert!(TriState::No.no());
    assert!(TriState::Unknown.unknown());
}

#[test]
fn aliases_agree_with_queries() {
    let all = [TriState::Yes, TriState::No, TriState::Unknown];
    for v in all {
        assert_eq!(v.definitely(), v.yes());
        assert_eq!(v.definitely_not(), v.no());
        assert_eq!(v.maybe(), v.unknown());
    }
}

#[test]
fn option_bool_round_trip() {
    let inputs = [Some(true), Some(false), None];
    for o in inputs {
        let back: Option<bool> = TriState::from(o).into();
        assert_eq!(back, o);
        assert_eq!(TriState::from(o).to_bool(), o);
    }
}

#[test]
fn tri_state_round_trip() {
    let all = [TriState::Yes, TriState::No, TriState::Unknown];
    for v in all {
        assert_eq!(TriState::from(v.to_bool()), v);
        assert_eq!(TriState::from(Option::<bool>::from(v)), v);
    }
}

#[test]
fn to_bool_values() {
    assert_eq!(TriState::Yes.to_bool(), Some(true));
    assert_eq!(TriState::No.to_bool(), Some(false));
    assert_eq!(TriState::Unknown.to_bool(), None);
    assert_eq!(Option::<bool>::from(TriState::Yes), Some(true));
    assert_eq!(Option::<bool>::from(TriState::No), Some(false));
    assert_eq!(Option::<bool>::from(TriState::Unknown), None);
}

#[test]
fn ordering_yes_below_no_below_unknown() {
    assert!(TriState::Yes < TriState::No);
    assert!(TriState::No < TriState::Unknown);
    assert!(TriState::Yes < TriState::Unknown);
    assert!(TriState::Unknown > TriState::No);
    assert!(!(TriState::No < TriState::No));
    assert_eq!(
        TriState::Yes.partial_cmp(&TriState::No),
        Some(std::cmp::Ordering::Less)
    );
    assert_eq!(
        TriState::No.partial_cmp(&TriState::No),
        Some(std::cmp::Ordering::Equal)
    );
    assert_eq!(
        TriState::Unknown.partial_cmp(&TriState::Yes),
        Some(std::cmp::Ordering::Greater)
    );
}

#[test]
fn equality_only_between_identical_variants() {
    let all = [TriState::Yes, TriState::No, TriState::Unknown];
    for (i, a) in all.iter().enumerate() {
        for (j, b) in all.iter().enumerate() {
            assert_eq!(a == b, i == j);
        }
    }
}

#[test]
fn sorting_follows_declaration_order() {
    let mut v = vec![TriState::Unknown, TriState::Yes, TriState::No];
    v.sort();
    assert_eq!(v, vec![TriState::Yes, TriState::No, TriState::Unknown]);
}

#[test]
fn copies_are_independent_values() {
    let a = TriState::Yes;
    let b = a;
    assert!(a.yes());
    assert!(b.yes());
    assert_eq!(a, b);
}
