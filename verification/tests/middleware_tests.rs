use actix_jwt_api::auth::{Claims, TokenCheck};
use actix_jwt_api::brute_force::{brute_force_wall, WallDecision};
use actix_jwt_api::http::BruteForceFlag;
use actix_jwt_api::middleware::{
    auth_middleware_step, permissions_middleware_step, AuthAction, AuthEvent, AuthStage, CountRead,
    PermissionEvent,
};

fn claims() -> TokenCheck {
    TokenCheck::Valid(Claims::for_user("a@b.c".to_string(), "api", "addr", 1))
}

fn rejection(a: AuthAction) -> (u16, String, String, bool) {
    match a {
        AuthAction::Reject(r) => (r.status, r.body.error, r.body.message, matches!(r.brute_force, BruteForceFlag::Counted(Some(10)))),
        _ => panic!("expected a rejection"),
    }
}

#[test]
fn a_valid_token_of_a_known_user_passes() {
    let (s, a) = auth_middleware_step(AuthStage::Start, AuthEvent::Arrived { has_token: true }, 15);
    assert!(matches!(a, AuthAction::CheckToken));
    let (s, a) = auth_middleware_step(s, AuthEvent::TokenChecked(claims()), 15);
    assert!(matches!(a, AuthAction::FindUser { ref email } if email == "a@b.c"));
    let (s, a) = auth_middleware_step(s, AuthEvent::UserLooked { found: true }, 15);
    assert!(matches!(s, AuthStage::Done));
    assert!(matches!(a, AuthAction::Pass));
}

#[test]
fn missing_header_and_unknown_user_are_bad_requests() {
    let (_, a) = auth_middleware_step(AuthStage::Start, AuthEvent::Arrived { has_token: false }, 15);
    assert_eq!(rejection(a), (400, "Authorization Header not found.".to_string(), "No user Logged!".to_string(), false));
    let (_, a) = auth_middleware_step(AuthStage::FindingUser, AuthEvent::UserLooked { found: false }, 15);
    assert_eq!(rejection(a).0, 400);
}

#[test]
fn expired_token_is_unauthorized_and_not_counted() {
    let (_, a) = auth_middleware_step(AuthStage::CheckingToken, AuthEvent::TokenChecked(TokenCheck::Expired), 15);
    assert_eq!(rejection(a), (401, "Your Token expired, please login again.".to_string(), "Expired token!".to_string(), false));
}

#[test]
fn bad_token_is_counted_until_the_count_is_above_max() {
    let (s, a) = auth_middleware_step(AuthStage::CheckingToken, AuthEvent::TokenChecked(TokenCheck::Invalid), 15);
    assert!(matches!(a, AuthAction::ReadCount));
    let (_, a) = auth_middleware_step(s, AuthEvent::CountRead(CountRead::Count(15)), 15);
    assert_eq!(rejection(a), (401, "Your Token do not match with our API!".to_string(), "Unathorized user!".to_string(), true));
    let (_, a) = auth_middleware_step(AuthStage::ReadingCount, AuthEvent::CountRead(CountRead::Count(16)), 15);
    assert!(matches!(a, AuthAction::Pass));
    let (_, a) = auth_middleware_step(AuthStage::ReadingCount, AuthEvent::CountRead(CountRead::Failed { coded: false }), 15);
    assert!(rejection(a).3);
    let (_, a) = auth_middleware_step(AuthStage::ReadingCount, AuthEvent::CountRead(CountRead::Failed { coded: true }), 15);
    assert_eq!(rejection(a).0, 500);
}

#[test]
fn wall_then_auth_stop_every_bad_token() {
    for times in 0..40u32 {
        let walled = matches!(brute_force_wall(Some(times), 15), WallDecision::Reject(_));
        let (_, a) = auth_middleware_step(AuthStage::ReadingCount, AuthEvent::CountRead(CountRead::Count(times)), 15);
        assert!(walled || matches!(a, AuthAction::Reject(_)), "count {}", times);
    }
}

#[test]
fn events_out_of_turn_are_ignored() {
    let (s, a) = auth_middleware_step(AuthStage::Done, AuthEvent::UserLooked { found: true }, 15);
    assert!(matches!(s, AuthStage::Done));
    assert!(matches!(a, AuthAction::Ignore));
}

#[test]
fn only_administrators_pass_the_permission_check() {
    let (s, _) = permissions_middleware_step(AuthStage::Start, PermissionEvent::Arrived { has_token: true });
    let (s, _) = permissions_middleware_step(s, PermissionEvent::TokenChecked(claims()));
    let (_, a) = permissions_middleware_step(s, PermissionEvent::UserLooked { user_type_id: Some(1) });
    assert!(matches!(a, AuthAction::Pass));
    let (_, a) = permissions_middleware_step(AuthStage::FindingUser, PermissionEvent::UserLooked { user_type_id: Some(2) });
    assert_eq!(rejection(a).0, 401);
    let (_, a) = permissions_middleware_step(AuthStage::FindingUser, PermissionEvent::UserLooked { user_type_id: None });
    assert_eq!(rejection(a), (400, "Some Error raised at server side.".to_string(), "No user Logged!".to_string(), false));
    let (_, a) = permissions_middleware_step(AuthStage::CheckingToken, PermissionEvent::TokenChecked(TokenCheck::Expired));
    assert_eq!(rejection(a), (400, "Error decoding JWT Token!".to_string(), "Your JWT Token does not match to this API.".to_string(), true));
}
