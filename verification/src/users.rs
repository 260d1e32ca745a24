//! The user endpoints: registering, changing, deleting one's account and
//! setting up the second factor, once the database has been read.

use vstd::prelude::*;
use vstd::string::*;
use crate::http::{
    STATUS_INTERNAL_SERVER_ERROR, STATUS_NOT_FOUND, STATUS_OK, STATUS_UNAUTHORIZED,
};
use crate::login::{LoginVerdict, code_or_empty, login_verdict};
use crate::model::{User, UserDTO, UserView, opt_view};
use crate::passwords::{
    PASSWORD_HASH_COST, bcrypt_shape, bcrypt_verdict, matching_verdict, hash_password, verify_password,
};
use crate::responses::{
    AuthLoginError, Body, Guard, Reply, UserDeleteError, UserDeleteResponse, UserEnable2FAResponse,
    UserStoreError, UserStoreResponse, UserUpdateError, UserUpdateResponse, generic_error_reply,
    generic_message_reply, is_generic_error, is_generic_message,
};
use crate::two_factor::{
    TOTP_DIGITS, TOTP_SKEW, TOTP_STEP, TotpAlgorithm, TwoFactorSetup, check_second_factor, check_time_ok,
    hotp_value, key_holds_valid_secret, lemma_padded_decimal, pow10, second_factor_verdict,
    setup_from_random, setup_secret, totp_accepts_token, totp_code, totp_params_valid, window_step,
};
use crate::encoding::{base32_bytes, base32_text, lemma_base32_round_trip};
use crate::validation::{UserStoreRequest, UserUpdateRequest};

verus! {

/// A user to be inserted: no password yet, no second factor, created and
/// changed now.
pub struct NewUser {
    pub name: String,
    pub email: String,
    pub password: Option<String>,
    pub two_factor_secret: Option<String>,
    pub two_factor_recovery_code: Option<String>,
    pub two_factor_confirmed_at: Option<i64>,
    pub created_at: Option<i64>,
    pub updated_at: Option<i64>,
    pub deleted_at: Option<i64>,
}

/// The user that a registration inserts, at instant `now`.
pub fn new_user(request: &UserStoreRequest, now: i64) -> (res: NewUser)
    ensures
        res.name@ == request.name@,
        res.email@ == request.email@,
        res.password is None,
        res.two_factor_secret is None,
        res.two_factor_recovery_code is None,
        res.two_factor_confirmed_at is None,
        res.created_at == Some(now),
        res.updated_at == Some(now),
        res.deleted_at is None,
{
    NewUser {
        name: request.name.clone(),
        email: request.email.clone(),
        password: None,
        two_factor_secret: None,
        two_factor_recovery_code: None,
        two_factor_confirmed_at: None,
        created_at: Some(now),
        updated_at: Some(now),
        deleted_at: None,
    }
}

/// The reply to a registration: the stored user, or `500` with the
/// database's error text.
pub fn store_user_reply(result: Result<User, String>) -> (res: Reply)
    ensures
        res.guard == Guard::Untouched,
        match result {
            Ok(u) => res.status == STATUS_OK && (match res.body {
                Body::UserStored(b) => b.message@ == "User stored successfuly!"@ && b.user == u,
                _ => false,
            }),
            Err(e) => res.status == STATUS_INTERNAL_SERVER_ERROR && (match res.body {
                Body::UserStoreFailed(b) => b.message@ == "Error while trying store User!"@ && b.error@ == e@,
                _ => false,
            }),
        },
{
    match result {
        Ok(user) => Reply {
            status: STATUS_OK,
            body: Body::UserStored(
                UserStoreResponse { message: String::from_str("User stored successfuly!"), user },
            ),
            guard: Guard::Untouched,
        },
        Err(error) => Reply {
            status: STATUS_INTERNAL_SERVER_ERROR,
            body: Body::UserStoreFailed(
                UserStoreError { message: String::from_str("Error while trying store User!"), error },
            ),
            guard: Guard::Untouched,
        },
    }
}

/// A reply with a `UserUpdateError` body.
pub open spec fn is_update_error(r: Reply, status: u16, message: Seq<char>, error: Seq<char>) -> bool {
    &&& r.status == status
    &&& r.guard == Guard::Untouched
    &&& r.body matches Body::UserChangeFailed(b) && b.message@ == message && b.error@ == error
}

fn update_error(status: u16, message: &str, error: &str) -> (res: Reply)
    ensures
        is_update_error(res, status, message@, error@),
{
    Reply {
        status,
        body: Body::UserChangeFailed(
            UserUpdateError { message: String::from_str(message), error: String::from_str(error) },
        ),
        guard: Guard::Untouched,
    }
}

/// The hash that a change of password is checked against: the stored one,
/// or the empty text for a user without a password.
pub open spec fn stored_hash(u: UserView) -> Seq<char> {
    match u.password {
        Some(h) => h,
        None => Seq::empty(),
    }
}

/// The record after a change whose password part is `password`: the name
/// and the e-mail of the body replace the stored ones where given, the
/// change instant is `now`, the rest is kept.
pub open spec fn changed_user(u: UserView, name: Option<Seq<char>>, email: Option<Seq<char>>, password: Option<Seq<char>>, now: i64) -> UserView {
    UserView {
        name: match name {
            Some(n) => n,
            None => u.name,
        },
        email: match email {
            Some(e) => e,
            None => u.email,
        },
        password,
        updated_at: Some(now),
        ..u
    }
}

/// The record `u` holds the name and the e-mail that a change gives and the
/// stored ones where it gives none, and keeps the kind, the second factor
/// and the creation and deletion instants of `before`.
pub open spec fn takes_given_identity(u: UserView, before: UserView, name: Option<String>, email: Option<String>) -> bool {
    &&& u.name == (match name {
        Some(n) => n@,
        None => before.name,
    })
    &&& u.email == (match email {
        Some(e) => e@,
        None => before.email,
    })
    &&& u.user_type_id == before.user_type_id
    &&& u.two_factor_secret == before.two_factor_secret
    &&& u.two_factor_recovery_code == before.two_factor_recovery_code
    &&& u.two_factor_confirmed_at == before.two_factor_confirmed_at
    &&& u.created_at == before.created_at
    &&& u.deleted_at == before.deleted_at
}

/// The record of a change with `hashed`, the outcome of hashing the new
/// password, put in: the hash replaces the stored password; `None` where
/// hashing failed, which the handler cannot go on from.
pub fn apply_new_password(dto: UserDTO, hashed: Result<String, String>) -> (res: Option<UserDTO>)
    ensures
        match hashed {
            Ok(h) => res matches Some(d) && d@ == (UserView { password: Some(h@), ..dto@ }),
            Err(_) => res is None,
        },
{
    match hashed {
        Ok(h) => {
            let mut d = dto;
            d.password = Some(h);
            Some(d)
        },
        Err(_) => None,
    }
}

/// Works out the change of `user` that an update body asks for, at instant
/// `now`. When the body gives the old password, it must match the stored
/// hash: an unreadable hash is `500`, a wrong password `401`; a right one is
/// replaced by a fresh bcrypt hash of the new password. `None` where the
/// handler cannot go on: the new password is missing, or hashing it failed
/// (the salt comes from the operating system, so whether hashing succeeds is
/// not known here; `apply_new_password` says what each outcome gives).
pub fn update_user_plan(request: &UserUpdateRequest, user: &User, now: i64) -> (res: Option<Result<UserDTO, Reply>>)
    ensures
        res matches Some(Ok(dto)) ==> takes_given_identity(dto@, user@, request.name, request.email)
            && dto@.updated_at == Some(now),
        match request.old_password {
            None => res matches Some(Ok(dto)) && dto@ == changed_user(
                user@,
                opt_view(request.name),
                opt_view(request.email),
                user@.password,
                now,
            ),
            Some(old) => match bcrypt_verdict(old@, stored_hash(user@)) {
                Err(e) => res matches Some(Err(r)) && is_update_error(
                    r,
                    STATUS_INTERNAL_SERVER_ERROR,
                    "Server wasnt able to parse old Password to confirm!"@,
                    e,
                ),
                Ok(false) => res matches Some(Err(r)) && is_update_error(
                    r,
                    STATUS_UNAUTHORIZED,
                    "Password confirmation gone wrong!"@,
                    "Old password is wrong! Try again."@,
                ),
                Ok(true) => match request.new_password {
                    None => res is None,
                    Some(p) => match res {
                        None => true,
                        Some(Err(_)) => false,
                        Some(Ok(dto)) => rehashed(dto@, p@) && dto@ == changed_user(
                            user@,
                            opt_view(request.name),
                            opt_view(request.email),
                            dto@.password,
                            now,
                        ),
                    },
                },
            },
        },
{
    let mut dto = UserDTO::from_user(user);
    match &request.name {
        Some(n) => {
            dto.name = n.clone();
        },
        None => {},
    }
    match &request.email {
        Some(e) => {
            dto.email = e.clone();
        },
        None => {},
    }
    dto.updated_at = Some(now);
    match &request.old_password {
        None => Some(Ok(dto)),
        Some(old) => {
            let hash: &str = match &user.password {
                Some(h) => h.as_str(),
                None => "",
            };
            assert(hash@ == stored_hash(user@)) by {
                reveal_strlit("");
            }
            match verify_password(old.as_str(), hash) {
                Err(e) => Some(
                    Err(
                        Reply {
                            status: STATUS_INTERNAL_SERVER_ERROR,
                            body: Body::UserChangeFailed(
                                UserUpdateError {
                                    message: String::from_str(
                                        "Server wasnt able to parse old Password to confirm!",
                                    ),
                                    error: e,
                                },
                            ),
                            guard: Guard::Untouched,
                        },
                    ),
                ),
                Ok(false) => Some(
                    Err(
                        update_error(
                            STATUS_UNAUTHORIZED,
                            "Password confirmation gone wrong!",
                            "Old password is wrong! Try again.",
                        ),
                    ),
                ),
                Ok(true) => match &request.new_password {
                    None => None,
                    Some(p) => {
                        let hashed = hash_password(p.as_str(), PASSWORD_HASH_COST);
                        match apply_new_password(dto, hashed) {
                            None => None,
                            Some(d) => Some(Ok(d)),
                        }
                    },
                },
            }
        },
    }
}

/// A record whose password is a bcrypt hash, in the form that hashing with
/// the API's cost writes, that `password` matches.
pub open spec fn rehashed(u: UserView, password: Seq<char>) -> bool {
    u.password matches Some(h) && bcrypt_verdict(password, h) == matching_verdict() && bcrypt_shape(
        h,
        PASSWORD_HASH_COST,
    )
}

/// The `500` reply when the user to change could not be read.
pub fn update_lookup_failed_reply() -> (res: Reply)
    ensures
        is_update_error(
            res,
            STATUS_INTERNAL_SERVER_ERROR,
            "Error trying update user!"@,
            "Internal server error raised while looking for user in Database"@,
        ),
{
    update_error(
        STATUS_INTERNAL_SERVER_ERROR,
        "Error trying update user!",
        "Internal server error raised while looking for user in Database",
    )
}

/// The reply to a change: the changed user, or `404` when the update
/// failed (`None`).
pub fn update_user_reply(result: Option<User>) -> (res: Reply)
    ensures
        match result {
            Some(u) => res.status == STATUS_OK && res.guard == Guard::Untouched && (match res.body {
                Body::UserChanged(b) => b.message@ == "User updated successfully!"@ && b.user == u,
                _ => false,
            }),
            None => is_update_error(
                res,
                STATUS_NOT_FOUND,
                "Error trying update user!"@,
                "User was not found!"@,
            ),
        },
{
    match result {
        Some(user) => Reply {
            status: STATUS_OK,
            body: Body::UserChanged(
                UserUpdateResponse { message: String::from_str("User updated successfully!"), user },
            ),
            guard: Guard::Untouched,
        },
        None => update_error(STATUS_NOT_FOUND, "Error trying update user!", "User was not found!"),
    }
}

/// The `401` reply to a request without a token when deleting one's account.
pub fn missing_token_reply() -> (res: Reply)
    ensures
        is_generic_error(
            res,
            STATUS_UNAUTHORIZED,
            "Error trying delete account!"@,
            "No JWT Token was provided."@,
        ),
{
    generic_error_reply(STATUS_UNAUTHORIZED, "Error trying delete account!", "No JWT Token was provided.")
}

/// The `401` reply to a token that cannot be decoded when deleting one's
/// account.
pub fn undecodable_token_reply() -> (res: Reply)
    ensures
        res.status == STATUS_UNAUTHORIZED,
        res.guard == Guard::Untouched,
        res.body matches Body::LoginFailed(b) && b.message@ == "Cannot decode JWT!"@ && b.error@
            == "Your auth value may not be a valid Json Web Token."@,
{
    Reply {
        status: STATUS_UNAUTHORIZED,
        body: Body::LoginFailed(
            AuthLoginError {
                message: String::from_str("Cannot decode JWT!"),
                error: String::from_str("Your auth value may not be a valid Json Web Token."),
            },
        ),
        guard: Guard::Untouched,
    }
}

/// A reply with a `UserDeleteError` body.
pub open spec fn is_delete_error(r: Reply, status: u16, message: Seq<char>, error: Seq<char>) -> bool {
    &&& r.status == status
    &&& r.guard == Guard::Untouched
    &&& r.body matches Body::UserDeleteFailed(b) && b.message@ == message && b.error@ == error
}

/// The reply to deleting the account of `email`, given the number of rows
/// marked deleted or the database's error text: `200` when a row was, `404`
/// when none was, `500` on an error.
pub fn delete_account_reply(email: &str, result: Result<u64, String>) -> (res: Reply)
    ensures
        match result {
            Ok(rows) => if rows > 0 {
                &&& res.status == STATUS_OK
                &&& res.guard == Guard::Untouched
                &&& res.body matches Body::UserDeleted(b) && b.message@ == "Your user was deleted successfully!"@ && b.email@ == email@
            } else {
                is_delete_error(
                    res,
                    STATUS_NOT_FOUND,
                    "User was not deleted!"@,
                    "Query gone fine but user may not exists in our database."@,
                )
            },
            Err(e) => is_delete_error(res, STATUS_INTERNAL_SERVER_ERROR, "Some error raised deleting user"@, e@),
        },
{
    match result {
        Ok(rows) => if rows > 0 {
            Reply {
                status: STATUS_OK,
                body: Body::UserDeleted(
                    UserDeleteResponse {
                        message: String::from_str("Your user was deleted successfully!"),
                        email: String::from_str(email),
                    },
                ),
                guard: Guard::Untouched,
            }
        } else {
            Reply {
                status: STATUS_NOT_FOUND,
                body: Body::UserDeleteFailed(
                    UserDeleteError {
                        message: String::from_str("User was not deleted!"),
                        error: String::from_str("Query gone fine but user may not exists in our database."),
                    },
                ),
                guard: Guard::Untouched,
            }
        },
        Err(error) => Reply {
            status: STATUS_INTERNAL_SERVER_ERROR,
            body: Body::UserDeleteFailed(
                UserDeleteError { message: String::from_str("Some error raised deleting user"), error },
            ),
            guard: Guard::Untouched,
        },
    }
}

/// The record of an account deleted logically at `now`: kept whole, with
/// its deletion instant set.
pub open spec fn deleted_user(u: UserView, now: i64) -> UserView {
    UserView { deleted_at: Some(now), ..u }
}

/// The change that deletes the account of `user` logically at instant
/// `now`: the row stays, marked deleted.
pub fn delete_account_plan(user: &User, now: i64) -> (res: UserDTO)
    ensures
        res@ == deleted_user(user@, now),
{
    let mut dto = UserDTO::from_user(user);
    dto.deleted_at = Some(now);
    dto
}

/// The `401` reply to a token that is not valid, on the second-factor
/// endpoints.
pub fn invalid_token_reply() -> (res: Reply)
    ensures
        is_generic_error(res, STATUS_UNAUTHORIZED, "No user Logged!"@, "Invalid Authorization token."@),
{
    generic_error_reply(STATUS_UNAUTHORIZED, "No user Logged!", "Invalid Authorization token.")
}

/// The `404` reply when the user asking for a second factor is not found.
pub fn enable_2fa_user_missing_reply() -> (res: Reply)
    ensures
        is_update_error(
            res,
            STATUS_NOT_FOUND,
            "Error trying setting 2FA code for user!"@,
            "User not found."@,
        ),
{
    update_error(STATUS_NOT_FOUND, "Error trying setting 2FA code for user!", "User not found.")
}

/// The record of a user whose second factor awaits confirmation: the setup
/// key stored, changed at `now`.
pub open spec fn with_pending_secret(u: UserView, key: Seq<char>, now: i64) -> UserView {
    UserView { two_factor_secret: Some(key), updated_at: Some(now), ..u }
}

/// The change that stores the setup key of a new second factor.
pub fn enable_2fa_plan(user: &User, setup: &TwoFactorSetup, now: i64) -> (res: UserDTO)
    ensures
        res@ == with_pending_secret(user@, setup.setup_key@, now),
{
    let mut dto = UserDTO::from_user(user);
    dto.two_factor_secret = Some(setup.setup_key.clone());
    dto.updated_at = Some(now);
    dto
}

/// The reply once the setup key was written, given the rows changed (`None`
/// when the update failed): the QR code and the key when a row changed,
/// `404` when none did, and `200` with an error body when the update failed.
pub fn enable_2fa_reply(result: Option<u64>, setup: TwoFactorSetup) -> (res: Reply)
    ensures
        match result {
            Some(rows) => if rows > 0 {
                &&& res.status == STATUS_OK
                &&& res.guard == Guard::Untouched
                &&& res.body matches Body::TwoFactorPrepared(b) && b.message@
                    == "QR Code and Config Key generated! Confirm code at /user/activate-2fa"@
                    && b.qrcode@ == setup.qrcode@ && b.config_code@ == setup.setup_key@
            } else {
                is_update_error(
                    res,
                    STATUS_NOT_FOUND,
                    "Error trying setting 2FA code for user!"@,
                    "Query gone fine but 2FA code was not set for user."@,
                )
            },
            None => is_update_error(
                res,
                STATUS_OK,
                "Error trying setting 2FA code for user!"@,
                "Internal Server error while trying set 2FA code for user."@,
            ),
        },
{
    match result {
        Some(rows) => if rows > 0 {
            Reply {
                status: STATUS_OK,
                body: Body::TwoFactorPrepared(
                    UserEnable2FAResponse {
                        message: String::from_str(
                            "QR Code and Config Key generated! Confirm code at /user/activate-2fa",
                        ),
                        qrcode: setup.qrcode,
                        config_code: setup.setup_key,
                    },
                ),
                guard: Guard::Untouched,
            }
        } else {
            update_error(
                STATUS_NOT_FOUND,
                "Error trying setting 2FA code for user!",
                "Query gone fine but 2FA code was not set for user.",
            )
        },
        None => update_error(
            STATUS_OK,
            "Error trying setting 2FA code for user!",
            "Internal Server error while trying set 2FA code for user.",
        ),
    }
}

/// Whole seconds of an instant given in microseconds; an instant before
/// the epoch counts as the epoch.
pub open spec fn micros_to_secs(now: i64) -> u64 {
    if now < 0 {
        0
    } else {
        (now / 1_000_000) as u64
    }
}

/// Whole seconds of an instant given in microseconds.
pub fn unix_seconds(now: i64) -> (res: u64)
    ensures
        res == micros_to_secs(now),
{
    if now < 0 {
        0
    } else {
        (now / 1_000_000) as u64
    }
}

/// The record of a user whose second factor is confirmed at `now`.
pub open spec fn activated_user(u: UserView, now: i64) -> UserView {
    UserView { two_factor_confirmed_at: Some(now), updated_at: Some(now), ..u }
}

/// The `401` reply when the token's user is not found on confirmation.
pub fn activate_2fa_user_missing_reply() -> (res: Reply)
    ensures
        is_generic_error(res, STATUS_UNAUTHORIZED, "No user Logged!"@, "Your token claims are not valid."@),
{
    generic_error_reply(STATUS_UNAUTHORIZED, "No user Logged!", "Your token claims are not valid.")
}

/// Confirms the second factor of `user` with `code` at instant `now`
/// (microseconds): without a pending secret `401`; with a wrong code `401`;
/// with a right one the change that confirms the factor. `None` where the
/// handler cannot go on: the stored secret does not decode, the settings
/// are refused or the clock is out of range.
pub fn activate_2fa_plan(user: &User, code: &str, app_name: &str, now: i64) -> (res: Option<Result<UserDTO, Reply>>)
    ensures
        match user@.two_factor_secret {
            None => res matches Some(Err(r)) && is_generic_error(
                r,
                STATUS_UNAUTHORIZED,
                "Error trying confirm 2FA code for user!"@,
                "User did not request 2FA challenge!"@,
            ),
            Some(secret) => match second_factor_verdict(secret, app_name@, user@.email, code@, micros_to_secs(now)) {
                None => res is None,
                Some(false) => res matches Some(Err(r)) && is_generic_error(
                    r,
                    STATUS_UNAUTHORIZED,
                    "Error setting up 2FA!"@,
                    "Invalid code, user failed 2FA Challenge!"@,
                ),
                Some(true) => res matches Some(Ok(dto)) && dto@ == activated_user(user@, now),
            },
        },
{
    let secret = match &user.two_factor_secret {
        None => {
            return Some(
                Err(
                    generic_error_reply(
                        STATUS_UNAUTHORIZED,
                        "Error trying confirm 2FA code for user!",
                        "User did not request 2FA challenge!",
                    ),
                ),
            );
        },
        Some(s) => s,
    };
    let secs = unix_seconds(now);
    match check_second_factor(secret.as_str(), app_name, user.email.as_str(), code, secs) {
        None => None,
        Some(false) => Some(
            Err(
                generic_error_reply(
                    STATUS_UNAUTHORIZED,
                    "Error setting up 2FA!",
                    "Invalid code, user failed 2FA Challenge!",
                ),
            ),
        ),
        Some(true) => {
            let mut dto = UserDTO::from_user(user);
            dto.two_factor_confirmed_at = Some(now);
            dto.updated_at = Some(now);
            Some(Ok(dto))
        },
    }
}

/// The reply once the confirmation was written, given the rows changed
/// (`None` when the update failed).
pub fn activate_2fa_reply(result: Option<u64>) -> (res: Reply)
    ensures
        match result {
            Some(rows) => if rows > 0 {
                is_generic_message(res, STATUS_OK, "2FA setted up successfully!"@)
            } else {
                is_generic_error(
                    res,
                    STATUS_NOT_FOUND,
                    "Error setting up 2FA!"@,
                    "Query gone fine but 2FA Challenge was not confirmed on our side"@,
                )
            },
            None => is_generic_error(
                res,
                STATUS_INTERNAL_SERVER_ERROR,
                "Error setting up 2FA!"@,
                "Internal Server error querying to DB"@,
            ),
        },
{
    match result {
        Some(rows) => if rows > 0 {
            generic_message_reply(STATUS_OK, "2FA setted up successfully!", Guard::Untouched)
        } else {
            generic_error_reply(
                STATUS_NOT_FOUND,
                "Error setting up 2FA!",
                "Query gone fine but 2FA Challenge was not confirmed on our side",
            )
        },
        None => generic_error_reply(
            STATUS_INTERNAL_SERVER_ERROR,
            "Error setting up 2FA!",
            "Internal Server error querying to DB",
        ),
    }
}

/// A password set through a change is the one that logs the user in: when
/// the change stored a hash that `bcrypt` accepts the new password against
/// (which `update_user_plan` guarantees) and the user has no confirmed
/// second factor, logging in with the new password issues a token.
pub proof fn changed_password_opens_login(
    before: UserView,
    name: Option<Seq<char>>,
    email: Option<Seq<char>>,
    hash: Seq<char>,
    now: i64,
    new_password: Seq<char>,
    code: Option<Seq<char>>,
    app_name: Seq<char>,
    now_secs: u64,
)
    requires
        before.two_factor_confirmed_at is None,
        bcrypt_verdict(new_password, hash) == matching_verdict(),
    ensures
        ({
            let after = changed_user(before, name, email, Some(hash), now);
            login_verdict(Some(after), new_password, code, app_name, now_secs) == LoginVerdict::Issue {
                email: after.email,
                guard: Guard::Untouched,
            }
        }),
{
}

/// A code that confirmed the second factor also completes a login at the
/// same instant: after the confirmation, the right password with that code
/// issues a token and clears the sender's count.
pub proof fn confirmed_code_opens_login(
    before: UserView,
    secret: Seq<char>,
    hash: Seq<char>,
    password: Seq<char>,
    code: Seq<char>,
    app_name: Seq<char>,
    now: i64,
)
    requires
        before.two_factor_secret == Some(secret),
        before.password == Some(hash),
        bcrypt_verdict(password, hash) == matching_verdict(),
        second_factor_verdict(secret, app_name, before.email, code, micros_to_secs(now)) == Some(true),
    ensures
        login_verdict(Some(activated_user(before, now)), password, Some(code), app_name, micros_to_secs(now))
            == (LoginVerdict::Issue { email: before.email, guard: Guard::Cleared }),
{
}

/// Once the second factor is confirmed, the right password alone does not
/// log in: a code that the factor rejects is refused and counted against
/// the sender.
pub proof fn confirmed_factor_is_required(
    u: UserView,
    secret: Seq<char>,
    hash: Seq<char>,
    password: Seq<char>,
    code: Option<Seq<char>>,
    app_name: Seq<char>,
    now_secs: u64,
)
    requires
        u.two_factor_confirmed_at is Some,
        u.two_factor_secret == Some(secret),
        u.password == Some(hash),
        bcrypt_verdict(password, hash) == matching_verdict(),
        second_factor_verdict(secret, app_name, u.email, code_or_empty(code), now_secs) == Some(false),
    ensures
        login_verdict(Some(u), password, code, app_name, now_secs) == LoginVerdict::ChallengeFailed,
{
}

/// Confirming a second factor checks codes against the very secret behind
/// the setup key that was shown: for a key that decodes to a secret the
/// settings accept (as every key that `two_factor_setup_from` hands out
/// does), confirmation at a clock reading that `TOTP::check` works at
/// accepts exactly the codes that `TOTP::check` accepts for that secret.
pub proof fn setup_key_is_checked_against_its_secret(
    key: Seq<char>,
    app_name: Seq<char>,
    account: Seq<char>,
    code: Seq<char>,
    now_secs: u64,
)
    requires
        key_holds_valid_secret(key, app_name, account),
        check_time_ok(now_secs),
    ensures
        second_factor_verdict(key, app_name, account, code, now_secs) == Some(
            totp_accepts_token(
                TotpAlgorithm::Sha512,
                TOTP_DIGITS,
                TOTP_SKEW,
                TOTP_STEP,
                base32_bytes(key)->0,
                code,
                now_secs,
            ),
        ),
{
}

/// The code that an authenticator shows for a setup key at instant `shown`
/// is accepted, against that key, at any later or earlier instant `checked`
/// of the same thirty-second step or of the step on either side: both when
/// the second factor is confirmed and when a login checks it.
pub proof fn device_code_is_accepted(key: Seq<char>, app_name: Seq<char>, account: Seq<char>, shown: u64, checked: u64)
    requires
        key_holds_valid_secret(key, app_name, account),
        check_time_ok(checked),
        checked / TOTP_STEP <= shown / TOTP_STEP + 1,
        shown / TOTP_STEP <= checked / TOTP_STEP + 1,
    ensures
        second_factor_verdict(
            key,
            app_name,
            account,
            totp_code(TotpAlgorithm::Sha512, TOTP_DIGITS, base32_bytes(key)->0, (shown / TOTP_STEP) as u64),
            checked,
        ) == Some(true),
{
    let secret = base32_bytes(key)->0;
    let i: int = shown / TOTP_STEP - checked / TOTP_STEP + 1;
    assert(window_step(TOTP_STEP, TOTP_SKEW, checked, i) == (shown / TOTP_STEP) as u64);
    assert(totp_code(TotpAlgorithm::Sha512, TOTP_DIGITS, secret, window_step(TOTP_STEP, TOTP_SKEW, checked, i))
        == totp_code(TotpAlgorithm::Sha512, TOTP_DIGITS, secret, (shown / TOTP_STEP) as u64));
}

/// The key that enabling the second factor shows confirms with the code
/// that an authenticator fed that key shows: the key reads back as the
/// setup's secret, so the code of the secret's step at instant `shown` is
/// accepted at any instant `checked` of the same step or of the step on
/// either side.
pub proof fn setup_key_confirms_with_device_code(
    random: Seq<u8>,
    app_name: Seq<char>,
    account: Seq<char>,
    shown: u64,
    checked: u64,
)
    requires
        setup_from_random(random, app_name, account) is Some,
        check_time_ok(checked),
        checked / TOTP_STEP <= shown / TOTP_STEP + 1,
        shown / TOTP_STEP <= checked / TOTP_STEP + 1,
    ensures
        ({
            let key = (setup_from_random(random, app_name, account)->0).1;
            &&& base32_bytes(key) == Some(setup_secret(random))
            &&& second_factor_verdict(
                key,
                app_name,
                account,
                totp_code(TotpAlgorithm::Sha512, TOTP_DIGITS, setup_secret(random), (shown / TOTP_STEP) as u64),
                checked,
            ) == Some(true)
        }),
{
    let secret = setup_secret(random);
    lemma_base32_round_trip(secret);
    let key = (setup_from_random(random, app_name, account)->0).1;
    assert(key == base32_text(secret));
    device_code_is_accepted(key, app_name, account, shown, checked);
}

/// Once the second factor is confirmed, a login that gives the right
/// password and no code is refused as a failed challenge and counted twice
/// against the sender: every code has six digits, so the empty text that
/// stands for the missing code matches none.
pub proof fn missing_code_fails_the_challenge(
    u: UserView,
    secret: Seq<char>,
    hash: Seq<char>,
    password: Seq<char>,
    app_name: Seq<char>,
    now_secs: u64,
)
    requires
        u.two_factor_confirmed_at is Some,
        u.two_factor_secret == Some(secret),
        u.password == Some(hash),
        bcrypt_verdict(password, hash) == matching_verdict(),
        key_holds_valid_secret(secret, app_name, u.email),
        check_time_ok(now_secs),
    ensures
        login_verdict(Some(u), password, None, app_name, now_secs) == LoginVerdict::ChallengeFailed,
{
    let bytes = base32_bytes(secret)->0;
    assert forall|i: int| 0 <= i < 2 * TOTP_SKEW + 1 implies #[trigger] totp_code(
        TotpAlgorithm::Sha512,
        TOTP_DIGITS,
        bytes,
        window_step(TOTP_STEP, TOTP_SKEW, now_secs, i),
    ) != Seq::<char>::empty() by {
        let v = hotp_value(TotpAlgorithm::Sha512, bytes, window_step(TOTP_STEP, TOTP_SKEW, now_secs, i)) as nat
            % pow10(TOTP_DIGITS as nat);
        lemma_padded_decimal(v, TOTP_DIGITS as nat);
    }
    assert(code_or_empty(None) == Seq::<char>::empty());
}

/// Enabling the second factor, confirming it with the authenticator's code
/// and logging in, end to end. The key shown when the factor is enabled is
/// stored as the pending secret; the code that an authenticator fed that
/// key shows (at `shown`, within a step of the confirmation) confirms it,
/// which stores the confirmation instant; the right password with that code
/// then logs in at the confirmation instant; and from then on a login with
/// the right password succeeds exactly when its code is one that `TOTP::check`
/// accepts for the setup's secret at that instant, and otherwise fails the
/// challenge.
pub proof fn enable_confirm_then_login(
    random: Seq<u8>,
    app_name: Seq<char>,
    before: UserView,
    enabled_at: i64,
    confirmed_at: i64,
    shown: u64,
    hash: Seq<char>,
    password: Seq<char>,
    later_code: Option<Seq<char>>,
    later_secs: u64,
)
    requires
        setup_from_random(random, app_name, before.email) is Some,
        before.password == Some(hash),
        bcrypt_verdict(password, hash) == matching_verdict(),
        check_time_ok(micros_to_secs(confirmed_at)),
        micros_to_secs(confirmed_at) / TOTP_STEP <= shown / TOTP_STEP + 1,
        shown / TOTP_STEP <= micros_to_secs(confirmed_at) / TOTP_STEP + 1,
        check_time_ok(later_secs),
    ensures
        ({
            let key = (setup_from_random(random, app_name, before.email)->0).1;
            let pending = with_pending_secret(before, key, enabled_at);
            let code = totp_code(TotpAlgorithm::Sha512, TOTP_DIGITS, setup_secret(random), (shown / TOTP_STEP) as u64);
            let after = activated_user(pending, confirmed_at);
            &&& second_factor_verdict(key, app_name, pending.email, code, micros_to_secs(confirmed_at)) == Some(true)
            &&& after.two_factor_secret == Some(key)
            &&& after.two_factor_confirmed_at == Some(confirmed_at)
            &&& login_verdict(Some(after), password, Some(code), app_name, micros_to_secs(confirmed_at))
                == (LoginVerdict::Issue { email: before.email, guard: Guard::Cleared })
            &&& login_verdict(Some(after), password, later_code, app_name, later_secs) == if totp_accepts_token(
                TotpAlgorithm::Sha512,
                TOTP_DIGITS,
                TOTP_SKEW,
                TOTP_STEP,
                setup_secret(random),
                code_or_empty(later_code),
                later_secs,
            ) {
                LoginVerdict::Issue { email: before.email, guard: Guard::Cleared }
            } else {
                LoginVerdict::ChallengeFailed
            }
        }),
{
    let secret = setup_secret(random);
    lemma_base32_round_trip(secret);
    let key = (setup_from_random(random, app_name, before.email)->0).1;
    assert(key == base32_text(secret));
    assert(totp_params_valid(TOTP_DIGITS, secret, Some(app_name), before.email));
    setup_key_confirms_with_device_code(random, app_name, before.email, shown, micros_to_secs(confirmed_at));
}

/// A change stores the name and the e-mail that its body gives (keeping
/// the stored ones otherwise), the password it settles on, and the change
/// instant, and keeps the rest of the record.
pub proof fn user_change_stores_given_fields(
    u: UserView,
    name: Option<String>,
    email: Option<String>,
    password: Option<Seq<char>>,
    now: i64,
)
    ensures
        takes_given_identity(changed_user(u, opt_view(name), opt_view(email), password, now), u, name, email),
        changed_user(u, opt_view(name), opt_view(email), password, now).password == password,
        changed_user(u, opt_view(name), opt_view(email), password, now).updated_at == Some(now),
        email matches Some(e) ==> changed_user(u, opt_view(name), opt_view(email), password, now).email == e@,
        name matches Some(n) ==> changed_user(u, opt_view(name), opt_view(email), password, now).name == n@,
{
}

} // verus!
