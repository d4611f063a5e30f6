use heron_sound::follow::EnvFollower;

#[test]
fn follower_holds_for_the_hold_time() {
    // A hold of two samples: engaged on the crossing and for two samples after.
    let mut state = EnvFollower::default();
    assert!(!state.apply(false, 2));
    assert!(!state.apply(false, 2));
    assert!(state.apply(true, 2));
    assert!(state.apply(false, 2));
    assert!(state.apply(false, 2));
    assert!(!state.apply(false, 2));
    assert!(!state.apply(false, 2));
}

#[test]
fn follower_crossing_restarts_the_hold() {
    let mut state = EnvFollower::new();
    assert!(state.apply(true, 1));
    assert!(state.apply(false, 1));
    assert!(state.apply(true, 1));
    assert!(state.apply(false, 1));
    assert!(!state.apply(false, 1));
}

#[test]
fn follower_with_zero_hold_releases_at_once() {
    let mut state = EnvFollower::new();
    assert!(state.apply(true, 0));
    assert!(!state.apply(false, 0));
    assert!(!state.apply(false, 0));
}
