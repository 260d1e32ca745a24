use actix_jwt_api::login::{login_decision, LoginDecision};
use actix_jwt_api::model::{User, UserDTO};
use actix_jwt_api::responses::{Body, Guard, Reply};
use actix_jwt_api::two_factor::TwoFactorSetup;
use actix_jwt_api::users::{
    activate_2fa_plan, activate_2fa_reply, activate_2fa_user_missing_reply, apply_new_password, delete_account_plan,
    delete_account_reply,
    enable_2fa_plan, enable_2fa_reply, enable_2fa_user_missing_reply, invalid_token_reply,
    missing_token_reply, new_user, store_user_reply, undecodable_token_reply, unix_seconds,
    update_lookup_failed_reply, update_user_plan, update_user_reply,
};
use actix_jwt_api::validation::{UserStoreRequest, UserUpdateRequest};
use totp_rs::{Algorithm, TOTP};

const NOW_MICROS: i64 = 1_725_029_869_123_456;

fn user(password: Option<String>) -> User {
    User {
        id: 7,
        name: "Fulano".to_string(),
        email: "fulano@example.com".to_string(),
        password,
        user_type_id: 2,
        two_factor_secret: None,
        two_factor_recovery_code: Some("recovery".to_string()),
        two_factor_confirmed_at: None,
        created_at: Some(10),
        updated_at: Some(20),
        deleted_at: None,
    }
}

fn update(old: Option<&str>, new: Option<&str>, name: Option<&str>) -> UserUpdateRequest {
    UserUpdateRequest {
        name: name.map(|s| s.to_string()),
        email: None,
        confirm_new_password: new.map(|s| s.to_string()),
        new_password: new.map(|s| s.to_string()),
        old_password: old.map(|s| s.to_string()),
    }
}

fn update_error(r: &Reply) -> (String, String) {
    match &r.body {
        Body::UserChangeFailed(b) => (b.message.clone(), b.error.clone()),
        _ => panic!("expected an update error body"),
    }
}

fn generic_error(r: &Reply) -> (String, String) {
    match &r.body {
        Body::Error(b) => (b.message.clone(), b.error.clone()),
        _ => panic!("expected a generic error body"),
    }
}

#[test]
fn registration_inserts_a_user_without_password() {
    let r = UserStoreRequest { name: "Fulano_teste".to_string(), email: "testeshenrique12345@gmail.com".to_string() };
    let u = new_user(&r, 99);
    assert_eq!(u.name, "Fulano_teste");
    assert_eq!(u.email, "testeshenrique12345@gmail.com");
    assert!(u.password.is_none());
    assert!(u.two_factor_secret.is_none());
    assert_eq!(u.created_at, Some(99));
    assert_eq!(u.updated_at, Some(99));
    assert!(u.deleted_at.is_none());
}

#[test]
fn registration_replies() {
    let r = store_user_reply(Ok(user(None)));
    assert_eq!(r.status, 200);
    assert!(matches!(r.body, Body::UserStored(ref b) if b.message == "User stored successfuly!" && b.user.id == 7));
    let r = store_user_reply(Err("duplicate key".to_string()));
    assert_eq!(r.status, 500);
    assert!(matches!(r.body, Body::UserStoreFailed(ref b) if b.error == "duplicate key" && b.message == "Error while trying store User!"));
}

#[test]
fn change_without_password_keeps_the_hash() {
    let u = user(Some("stored".to_string()));
    let dto = update_user_plan(&update(None, None, Some("Beltrano")), &u, 5).unwrap().ok().unwrap();
    assert_eq!(dto.name, "Beltrano");
    assert_eq!(dto.email, "fulano@example.com");
    assert_eq!(dto.password.as_deref(), Some("stored"));
    assert_eq!(dto.updated_at, Some(5));
    assert_eq!(dto.created_at, Some(10));
    assert_eq!(dto.two_factor_recovery_code.as_deref(), Some("recovery"));
}

#[test]
fn change_with_right_old_password_rehashes_the_new_one() {
    let u = user(Some(bcrypt::hash("old", 4).unwrap()));
    let dto = update_user_plan(&update(Some("old"), Some("new"), None), &u, 5).unwrap().ok().unwrap();
    let stored = dto.password.unwrap();
    assert!(bcrypt::verify("new", &stored).unwrap());
    assert!(!bcrypt::verify("old", &stored).unwrap());
}

#[test]
fn change_with_wrong_old_password_is_refused() {
    let u = user(Some(bcrypt::hash("old", 4).unwrap()));
    let r = update_user_plan(&update(Some("wrong"), Some("new"), None), &u, 5).unwrap().err().unwrap();
    assert_eq!(r.status, 401);
    assert_eq!(update_error(&r), ("Password confirmation gone wrong!".to_string(), "Old password is wrong! Try again.".to_string()));
}

#[test]
fn change_against_an_unreadable_hash_is_a_server_error() {
    let u = user(None);
    let r = update_user_plan(&update(Some("old"), Some("new"), None), &u, 5).unwrap().err().unwrap();
    assert_eq!(r.status, 500);
    let (message, error) = update_error(&r);
    assert_eq!(message, "Server wasnt able to parse old Password to confirm!");
    assert!(!error.is_empty());
}

#[test]
fn right_old_password_without_new_one_stops_the_handler() {
    let u = user(Some(bcrypt::hash("old", 4).unwrap()));
    assert!(update_user_plan(&update(Some("old"), None, None), &u, 5).is_none());
}

#[test]
fn changed_password_logs_the_user_in() {
    let u = user(Some(bcrypt::hash("old", 4).unwrap()));
    let dto = update_user_plan(&update(Some("old"), Some("new"), None), &u, 5).unwrap().ok().unwrap();
    let after = User { password: dto.password.clone(), ..user(None) };
    match login_decision(Some(&after), "new", None, "api", 1_725_029_869) {
        Some(LoginDecision::IssueToken { email, .. }) => assert_eq!(email, "fulano@example.com"),
        _ => panic!("the new password did not log in"),
    }
}

#[test]
fn update_and_lookup_replies() {
    let r = update_user_reply(Some(user(None)));
    assert_eq!(r.status, 200);
    assert!(matches!(r.body, Body::UserChanged(ref b) if b.message == "User updated successfully!"));
    let r = update_user_reply(None);
    assert_eq!(r.status, 404);
    assert_eq!(update_error(&r), ("Error trying update user!".to_string(), "User was not found!".to_string()));
    let r = update_lookup_failed_reply();
    assert_eq!(r.status, 500);
}

#[test]
fn account_deletion_replies() {
    let r = delete_account_reply("a@b.c", Ok(1));
    assert_eq!(r.status, 200);
    assert!(matches!(r.body, Body::UserDeleted(ref b) if b.email == "a@b.c" && b.message == "Your user was deleted successfully!"));
    let r = delete_account_reply("a@b.c", Ok(0));
    assert_eq!(r.status, 404);
    assert!(matches!(r.body, Body::UserDeleteFailed(ref b) if b.message == "User was not deleted!"));
    let r = delete_account_reply("a@b.c", Err("db down".to_string()));
    assert_eq!(r.status, 500);
    assert!(matches!(r.body, Body::UserDeleteFailed(ref b) if b.error == "db down"));
    let r = missing_token_reply();
    assert_eq!(r.status, 401);
    assert_eq!(generic_error(&r), ("Error trying delete account!".to_string(), "No JWT Token was provided.".to_string()));
    let r = undecodable_token_reply();
    assert_eq!(r.status, 401);
    assert!(matches!(r.body, Body::LoginFailed(ref b) if b.message == "Cannot decode JWT!"));
}

#[test]
fn second_factor_setup_is_stored_then_answered() {
    let u = user(None);
    let setup = TwoFactorSetup { qrcode: "QR".to_string(), setup_key: "KEY".to_string() };
    let dto = enable_2fa_plan(&u, &setup, 77);
    assert_eq!(dto.two_factor_secret.as_deref(), Some("KEY"));
    assert_eq!(dto.updated_at, Some(77));
    assert!(dto.two_factor_confirmed_at.is_none());
    let r = enable_2fa_reply(Some(1), setup);
    assert_eq!(r.status, 200);
    assert!(matches!(r.body, Body::TwoFactorPrepared(ref b) if b.qrcode == "QR" && b.config_code == "KEY"));
    let setup = TwoFactorSetup { qrcode: "QR".to_string(), setup_key: "KEY".to_string() };
    let r = enable_2fa_reply(Some(0), setup);
    assert_eq!(r.status, 404);
    let setup = TwoFactorSetup { qrcode: "QR".to_string(), setup_key: "KEY".to_string() };
    let r = enable_2fa_reply(None, setup);
    assert_eq!(r.status, 200);
    assert_eq!(update_error(&r).1, "Internal Server error while trying set 2FA code for user.");
    assert_eq!(enable_2fa_user_missing_reply().status, 404);
    assert_eq!(generic_error(&invalid_token_reply()), ("No user Logged!".to_string(), "Invalid Authorization token.".to_string()));
}

fn secret_bytes() -> Vec<u8> {
    b"sixteen bytes at least".to_vec()
}

fn code_at(secs: u64) -> String {
    TOTP::new(Algorithm::SHA512, 6, 1, 30, secret_bytes(), Some("api".to_string()), "fulano@example.com".to_string())
        .unwrap()
        .generate(secs)
}

#[test]
fn activation_confirms_with_the_right_code() {
    let secret = base32::encode(base32::Alphabet::Rfc4648 { padding: false }, &secret_bytes());
    let u = User { two_factor_secret: Some(secret.clone()), password: Some(bcrypt::hash("pw", 4).unwrap()), ..user(None) };
    let secs = unix_seconds(NOW_MICROS);
    assert_eq!(secs, 1_725_029_869);
    let code = code_at(secs);
    let dto = activate_2fa_plan(&u, &code, "api", NOW_MICROS).unwrap().ok().unwrap();
    assert_eq!(dto.two_factor_confirmed_at, Some(NOW_MICROS));
    assert_eq!(dto.updated_at, Some(NOW_MICROS));
    assert_eq!(dto.two_factor_secret.as_deref(), Some(secret.as_str()));
    let after = User { two_factor_confirmed_at: dto.two_factor_confirmed_at, ..u };
    match login_decision(Some(&after), "pw", Some(&code), "api", secs) {
        Some(LoginDecision::IssueToken { guard, .. }) => assert!(matches!(guard, Guard::Cleared)),
        _ => panic!("the confirmed code did not log in"),
    }
}

#[test]
fn activation_refuses_a_wrong_code_or_no_pending_secret() {
    let r = activate_2fa_plan(&user(None), "123456", "api", NOW_MICROS).unwrap().err().unwrap();
    assert_eq!(r.status, 401);
    assert_eq!(generic_error(&r).1, "User did not request 2FA challenge!");
    let secret = base32::encode(base32::Alphabet::Rfc4648 { padding: false }, &secret_bytes());
    let u = User { two_factor_secret: Some(secret), ..user(None) };
    let secs = unix_seconds(NOW_MICROS);
    let stale = code_at(secs - 7200);
    let near: Vec<String> = (0..3).map(|i| code_at(secs - 30 + 30 * i)).collect();
    if !near.contains(&stale) {
        let r = activate_2fa_plan(&u, &stale, "api", NOW_MICROS).unwrap().err().unwrap();
        assert_eq!(r.status, 401);
        assert_eq!(generic_error(&r), ("Error setting up 2FA!".to_string(), "Invalid code, user failed 2FA Challenge!".to_string()));
    }
    let u = User { two_factor_secret: Some("@@@".to_string()), ..user(None) };
    assert!(activate_2fa_plan(&u, "123456", "api", NOW_MICROS).is_none());
}

#[test]
fn activation_replies() {
    let r = activate_2fa_reply(Some(1));
    assert_eq!(r.status, 200);
    assert!(matches!(r.body, Body::Message(ref m) if m.message == "2FA setted up successfully!"));
    assert_eq!(activate_2fa_reply(Some(0)).status, 404);
    let r = activate_2fa_reply(None);
    assert_eq!(r.status, 500);
    assert_eq!(generic_error(&r).1, "Internal Server error querying to DB");
    let r = activate_2fa_user_missing_reply();
    assert_eq!(generic_error(&r), ("No user Logged!".to_string(), "Your token claims are not valid.".to_string()));
}

#[test]
fn a_fresh_hash_replaces_the_password() {
    let dto = UserDTO::from_user(&user(Some("old-hash".to_string())));
    let d = apply_new_password(dto, Ok("new-hash".to_string())).unwrap();
    assert_eq!(d.password.as_deref(), Some("new-hash"));
    assert_eq!(d.name, "Fulano");
    assert_eq!(d.updated_at, Some(20));
    let dto = UserDTO::from_user(&user(Some("old-hash".to_string())));
    assert!(apply_new_password(dto, Err("no randomness".to_string())).is_none());
}

#[test]
fn the_new_password_is_stored_as_a_cost_ten_hash() {
    let u = user(Some(bcrypt::hash("old", 4).unwrap()));
    let dto = update_user_plan(&update(Some("old"), Some("new"), Some("Beltrano")), &u, 5).unwrap().ok().unwrap();
    let stored = dto.password.unwrap();
    assert_eq!(stored.len(), 60);
    assert!(stored.starts_with("$2b$10$"));
    assert_ne!(stored, "new");
    assert_eq!(dto.name, "Beltrano");
    assert_eq!(dto.updated_at, Some(5));
}

#[test]
fn deleting_an_account_marks_it() {
    let u = user(Some("hash".to_string()));
    let dto = delete_account_plan(&u, NOW_MICROS);
    assert_eq!(dto.deleted_at, Some(NOW_MICROS));
    assert_eq!(dto.email, "fulano@example.com");
    assert_eq!(dto.password.as_deref(), Some("hash"));
    assert_eq!(dto.updated_at, Some(20));
    assert_eq!(dto.created_at, Some(10));
}

#[test]
fn a_confirmed_factor_refuses_a_login_without_code() {
    let secret = base32::encode(base32::Alphabet::Rfc4648 { padding: false }, &secret_bytes());
    let u = User {
        two_factor_secret: Some(secret),
        two_factor_confirmed_at: Some(NOW_MICROS),
        password: Some(bcrypt::hash("pw", 4).unwrap()),
        ..user(None)
    };
    match login_decision(Some(&u), "pw", None, "api", unix_seconds(NOW_MICROS)) {
        Some(LoginDecision::Refuse(r)) => {
            assert_eq!(r.status, 401);
            assert!(matches!(r.guard, Guard::Counted(Some(2))));
            assert!(matches!(r.body, Body::Message(ref m) if m.message == "2FA challenge failed! Try again."));
        }
        _ => panic!("a login without code went through"),
    }
}

#[test]
fn instants_before_the_epoch_count_as_the_epoch() {
    assert_eq!(unix_seconds(-5), 0);
    assert_eq!(unix_seconds(2_999_999), 2);
    let secret = base32::encode(base32::Alphabet::Rfc4648 { padding: false }, &secret_bytes());
    let u = User { two_factor_secret: Some(secret), ..user(None) };
    assert!(activate_2fa_plan(&u, "123456", "api", 10).is_none());
}
