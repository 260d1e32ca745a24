use actix_jwt_api::auth::{Claims, TokenCheck, TOKEN_LIFETIME_SECONDS};
use actix_jwt_api::login::{login_decision, login_success_reply, validate_token_reply, LoginDecision};
use actix_jwt_api::model::User;
use actix_jwt_api::responses::{Body, Guard, Reply};
use totp_rs::{Algorithm, TOTP};

const NOW: u64 = 1_725_029_869;

fn user(password: Option<String>, confirmed: bool, secret: Option<String>) -> User {
    User {
        id: 1,
        name: "Cleverton".to_string(),
        email: "cleverton@example.com".to_string(),
        password,
        user_type_id: 2,
        two_factor_secret: secret,
        two_factor_recovery_code: None,
        two_factor_confirmed_at: if confirmed { Some(1) } else { None },
        created_at: Some(1),
        updated_at: Some(1),
        deleted_at: None,
    }
}

fn refused(d: Option<LoginDecision>) -> Reply {
    match d {
        Some(LoginDecision::Refuse(r)) => r,
        _ => panic!("expected a refusal"),
    }
}

fn login_error(r: &Reply) -> (String, String) {
    match &r.body {
        Body::LoginFailed(b) => (b.message.clone(), b.error.clone()),
        _ => panic!("expected a login error body"),
    }
}

fn secret_bytes() -> Vec<u8> {
    b"a secret of twenty bytes".to_vec()
}

fn secret_text() -> String {
    base32::encode(base32::Alphabet::Rfc4648 { padding: false }, &secret_bytes())
}

fn code_at(time: u64) -> String {
    TOTP::new(Algorithm::SHA512, 6, 1, 30, secret_bytes(), Some("api".to_string()), "cleverton@example.com".to_string())
        .unwrap()
        .generate(time)
}

#[test]
fn unknown_email_is_not_found() {
    let r = refused(login_decision(None, "x", None, "api", NOW));
    assert_eq!(r.status, 404);
    assert!(matches!(r.guard, Guard::Untouched));
    assert_eq!(login_error(&r), ("Error trying to login!".to_string(), "Invalid email or password.".to_string()));
}

#[test]
fn user_without_password_is_a_conflict() {
    let r = refused(login_decision(Some(&user(None, false, None)), "x", None, "api", NOW));
    assert_eq!(r.status, 409);
    assert_eq!(login_error(&r).1, "Error trying to login");
    let r = refused(login_decision(Some(&user(None, true, None)), "x", None, "api", NOW));
    assert_eq!(r.status, 409);
    assert_eq!(login_error(&r), ("You have not set your user password yet!".to_string(), "Error trying update user!".to_string()));
}

#[test]
fn right_password_issues_a_token() {
    let hash = bcrypt::hash("cleverton123", 4).unwrap();
    match login_decision(Some(&user(Some(hash), false, None)), "cleverton123", None, "api", NOW) {
        Some(LoginDecision::IssueToken { email, guard }) => {
            assert_eq!(email, "cleverton@example.com");
            assert!(matches!(guard, Guard::Untouched));
        }
        _ => panic!("expected a token"),
    }
}

#[test]
fn wrong_password_is_counted() {
    let hash = bcrypt::hash("cleverton123", 4).unwrap();
    let r = refused(login_decision(Some(&user(Some(hash), false, None)), "nope", None, "api", NOW));
    assert_eq!(r.status, 404);
    assert!(matches!(r.guard, Guard::Counted(None)));
    assert_eq!(login_error(&r), ("Error trying to Login!".to_string(), "Invalid email or password.".to_string()));
}

#[test]
fn malformed_stored_hash_stops_the_handler() {
    assert!(login_decision(Some(&user(Some("not a hash".to_string()), false, None)), "x", None, "api", NOW).is_none());
}

#[test]
fn second_factor_completes_the_login() {
    let hash = bcrypt::hash("pw", 4).unwrap();
    let u = user(Some(hash), true, Some(secret_text()));
    let code = code_at(NOW);
    match login_decision(Some(&u), "pw", Some(&code), "api", NOW) {
        Some(LoginDecision::IssueToken { guard, .. }) => assert!(matches!(guard, Guard::Cleared)),
        _ => panic!("expected a token"),
    }
    let previous_step = code_at(NOW - 30);
    assert!(matches!(login_decision(Some(&u), "pw", Some(&previous_step), "api", NOW), Some(LoginDecision::IssueToken { .. })));
}

#[test]
fn wrong_or_missing_code_fails_the_challenge() {
    let hash = bcrypt::hash("pw", 4).unwrap();
    let u = user(Some(hash), true, Some(secret_text()));
    let stale = code_at(NOW - 3600);
    let fresh: Vec<String> = (0..3).map(|i| code_at(NOW - 30 + 30 * i)).collect();
    if !fresh.contains(&stale) {
        let r = refused(login_decision(Some(&u), "pw", Some(&stale), "api", NOW));
        assert_eq!(r.status, 401);
        assert!(matches!(r.guard, Guard::Counted(Some(2))));
        match r.body {
            Body::Message(m) => assert_eq!(m.message, "2FA challenge failed! Try again."),
            _ => panic!("expected a message body"),
        }
    }
    let r = refused(login_decision(Some(&u), "pw", None, "api", NOW));
    assert_eq!(r.status, 401);
}

#[test]
fn unusable_secret_stops_the_handler() {
    let hash = bcrypt::hash("pw", 4).unwrap();
    let u = user(Some(hash.clone()), true, Some("not base32!".to_string()));
    assert!(login_decision(Some(&u), "pw", Some("123456"), "api", NOW).is_none());
    let u = user(Some(hash.clone()), true, None);
    assert!(login_decision(Some(&u), "pw", Some("123456"), "api", NOW).is_none());
    let short = base32::encode(base32::Alphabet::Rfc4648 { padding: false }, b"short");
    let u = user(Some(hash), true, Some(short));
    assert!(login_decision(Some(&u), "pw", Some("123456"), "api", NOW).is_none());
}

#[test]
fn success_reply_carries_the_token() {
    let r = login_success_reply("tok".to_string(), Guard::Cleared);
    assert_eq!(r.status, 200);
    match r.body {
        Body::LoginSucceeded(b) => {
            assert_eq!(b.message, "Login successful");
            assert_eq!(b.token.as_deref(), Some("tok"));
        }
        _ => panic!("expected a login body"),
    }
}

#[test]
fn claims_expire_after_the_lifetime() {
    let c = Claims::for_user("a@b.c".to_string(), "api", "127.0.0.1", 1000);
    assert_eq!(c.exp, 1000 + TOKEN_LIFETIME_SECONDS);
    assert_eq!(c.exp, 4200);
    assert_eq!(c.iss, "127.0.0.1");
    assert_eq!(c.aud, "api");
    assert_eq!(c.sub, "a@b.c");
}

#[test]
fn token_check_replies() {
    let c = Claims::for_user("a@b.c".to_string(), "api", "addr", 5);
    let r = validate_token_reply(TokenCheck::Valid(c), true);
    assert_eq!(r.status, 200);
    assert!(matches!(r.body, Body::Claims(ref got) if got.sub == "a@b.c"));
    let c = Claims::for_user("a@b.c".to_string(), "api", "addr", 5);
    let r = validate_token_reply(TokenCheck::Valid(c), false);
    assert_eq!(r.status, 401);
    let r = validate_token_reply(TokenCheck::Expired, true);
    assert_eq!(r.status, 401);
    match r.body {
        Body::Error(e) => {
            assert_eq!(e.message, "No user Logged");
            assert_eq!(e.error, "Some error raised on server side!");
        }
        _ => panic!("expected an error body"),
    }
}
