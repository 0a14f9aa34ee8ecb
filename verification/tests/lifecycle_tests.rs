use blackjack::blackjack::lifecycle::{Lifecycle, LifecyclePhase, Phase};

#[test]
fn does_start_with_initial_phase() {
    let lifecycle = Lifecycle::new();

    assert_eq!(lifecycle.get_phase().curr(), &Phase::Initial);
}

#[test]
fn does_get_next_phase() {
    let mut lifecycle = Lifecycle::new();

    let next = lifecycle.get_phase_mut().next();

    assert!(next.is_some());
    assert_eq!(lifecycle.get_phase().curr(), &next.unwrap());
    assert_eq!(lifecycle.get_phase().curr(), &Phase::Betting);
    assert_eq!(lifecycle.get_phase().prev().to_owned().unwrap(), Phase::Initial);
}

#[test]
fn phases_stop_at_results_until_reset() {
    let mut phase = LifecyclePhase::new();

    assert_eq!(phase.next(), Some(Phase::Betting));
    assert_eq!(phase.next(), Some(Phase::Dealing));
    assert_eq!(phase.next(), Some(Phase::Playing));
    assert_eq!(phase.next(), Some(Phase::Results));
    assert_eq!(phase.next(), None);
    assert_eq!(phase.next(), None);
    assert_eq!(phase.curr(), &Phase::Results);

    phase.reset();
    assert_eq!(phase.curr(), &Phase::Initial);
    assert!(phase.prev().is_none());
    assert_eq!(phase.next(), Some(Phase::Betting));
}

#[test]
fn from_index_walks_the_phase_order() {
    assert_eq!(LifecyclePhase::from_index(0), Some(Phase::Initial));
    assert_eq!(LifecyclePhase::from_index(1), Some(Phase::Betting));
    assert_eq!(LifecyclePhase::from_index(2), Some(Phase::Dealing));
    assert_eq!(LifecyclePhase::from_index(3), Some(Phase::Playing));
    assert_eq!(LifecyclePhase::from_index(4), Some(Phase::Results));
    assert_eq!(LifecyclePhase::from_index(5), None);

    let all = LifecyclePhase::phases();
    assert_eq!(all.len(), 5);
    assert_eq!(all[0], Phase::Initial);
    assert_eq!(all[4], Phase::Results);
}
