use actix_jwt_api::brute_force::{brute_force_wall, next_attempt_count, WallDecision};

#[test]
fn first_failure_starts_the_count() {
    assert_eq!(next_attempt_count(None, 15), Some(1));
}

#[test]
fn failures_raise_the_count_up_to_the_maximum() {
    assert_eq!(next_attempt_count(Some(3), 15), Some(4));
    assert_eq!(next_attempt_count(Some(14), 15), Some(15));
    assert_eq!(next_attempt_count(Some(15), 15), None);
    assert_eq!(next_attempt_count(Some(40), 15), None);
}

#[test]
fn wall_blocks_from_the_maximum_on() {
    match brute_force_wall(Some(15), 15) {
        WallDecision::Reject(r) => {
            assert_eq!(r.status, 429);
            assert_eq!(r.body.error, "Too many requests.");
            assert_eq!(r.body.message, "Too many requests! Your IP its blocked!");
        }
        WallDecision::Pass => panic!("a blocked address passed"),
    }
    assert!(matches!(brute_force_wall(Some(14), 15), WallDecision::Pass));
    assert!(matches!(brute_force_wall(None, 15), WallDecision::Pass));
}

#[test]
fn an_address_is_blocked_after_max_failures() {
    let max = 5;
    let mut count: Option<u32> = None;
    for n in 1..=12u32 {
        if let Some(c) = next_attempt_count(count, max) {
            count = Some(c);
        }
        let blocked = matches!(brute_force_wall(count, max), WallDecision::Reject(_));
        assert_eq!(blocked, n >= max, "after {} failures", n);
    }
    assert_eq!(count, Some(5));
}
