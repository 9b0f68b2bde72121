use raytracer::shading::{Action, PathState};

/// Drives a path with the scene's answers in order and returns the final
/// action and the number of rays traced.
fn drive(max_depth: u32, answers: &[bool]) -> (Action, usize) {
    let (mut path, mut action) = PathState::begin(max_depth);
    let mut traced = 0;
    while let Action::Trace = action {
        assert!(path.depth_left > 0);
        action = path.record(answers[traced]);
        traced += 1;
    }
    (action, traced)
}

#[test]
fn zero_budget_is_black_without_tracing() {
    let (path, action) = PathState::begin(0);
    assert!(matches!(action, Action::Black));
    assert_eq!(path.depth_left, 0);
    assert_eq!(path.bounces, 0);
    assert!(matches!(drive(0, &[]), (Action::Black, 0)));
}

#[test]
fn zero_budget_is_black_even_when_every_ray_hits() {
    assert!(matches!(drive(0, &[true, true, true]), (Action::Black, 0)));
}

#[test]
fn first_ray_missing_gives_unscaled_sky() {
    for depth in [1u32, 2, 10, 50] {
        assert!(matches!(drive(depth, &[false]), (Action::Sky { bounces: 0 }, 1)));
    }
}

#[test]
fn escape_after_bounces_counts_them() {
    let (action, traced) = drive(5, &[true, true, false]);
    assert!(matches!(action, Action::Sky { bounces: 2 }));
    assert_eq!(traced, 3);
}

#[test]
fn every_ray_hitting_ends_black_after_budget() {
    let answers = vec![true; 60];
    for depth in [1u32, 3, 50] {
        let (action, traced) = drive(depth, &answers);
        assert!(matches!(action, Action::Black));
        assert_eq!(traced, depth as usize);
    }
}

#[test]
fn record_hit_spends_one_ray() {
    let (mut path, _) = PathState::begin(3);
    let action = path.record(true);
    assert!(matches!(action, Action::Trace));
    assert_eq!(path.depth_left, 2);
    assert_eq!(path.bounces, 1);
}

#[test]
fn record_miss_keeps_state() {
    let mut path = PathState { depth_left: 4, bounces: 2 };
    let action = path.record(false);
    assert!(matches!(action, Action::Sky { bounces: 2 }));
    assert_eq!(path.depth_left, 4);
    assert_eq!(path.bounces, 2);
}

#[test]
fn last_ray_hitting_ends_black() {
    let mut path = PathState { depth_left: 1, bounces: 7 };
    assert!(matches!(path.record(true), Action::Black));
    assert_eq!(path.depth_left, 0);
    assert_eq!(path.bounces, 8);
}
