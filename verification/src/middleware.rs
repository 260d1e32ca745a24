//! The middleware that guards the authenticated routes, written as machines
//! that the server drives: each step takes the stage reached and what the
//! last outside call found, and gives the next stage and what to do.

use vstd::prelude::*;
use vstd::string::*;
use crate::auth::{Claims, TokenCheck};
use crate::brute_force::wall_blocks;
use crate::http::{
    BruteForceFlag, Rejection, STATUS_BAD_REQUEST, STATUS_INTERNAL_SERVER_ERROR,
    STATUS_UNAUTHORIZED, bad_request_response, flag_for, internal_server_error_response,
    is_rejection, unauthorized_response,
};

verus! {

/// Where a request is in the authentication middleware.
pub enum AuthStage {
    /// Nothing looked at yet.
    Start,
    /// Waiting for the token to be checked.
    CheckingToken,
    /// Waiting for the token's user to be looked up.
    FindingUser,
    /// Waiting for the sender's count of failed attempts.
    ReadingCount,
    /// Decided.
    Done,
}

/// What reading the sender's count found.
pub enum CountRead {
    /// The count.
    Count(u32),
    /// No count could be read; `coded` when the cache answered with an error
    /// code.
    Failed { coded: bool },
}

/// What the last outside step found.
pub enum AuthEvent {
    /// The request arrived, with or without an `authorization` header.
    Arrived { has_token: bool },
    /// The token was checked.
    TokenChecked(TokenCheck),
    /// The token's user was looked up.
    UserLooked { found: bool },
    /// The sender's count was read.
    CountRead(CountRead),
}

/// What the server is to do next.
pub enum AuthAction {
    /// Check the token of the header.
    CheckToken,
    /// Look the user up by this e-mail.
    FindUser { email: String },
    /// Read the sender's count of failed attempts.
    ReadCount,
    /// Let the request through.
    Pass,
    /// Refuse the request.
    Reject(Rejection),
    /// The event does not belong to the stage: nothing to do.
    Ignore,
}

/// An action written with mathematical values.
pub enum AuthStep {
    CheckToken,
    FindUser(Seq<char>),
    ReadCount,
    Pass,
    Reject { status: u16, error: Seq<char>, message: Seq<char>, flag: BruteForceFlag },
    Ignore,
}

/// The rejection of a token that does not match the API.
pub open spec fn token_mismatch() -> AuthStep {
    AuthStep::Reject {
        status: STATUS_UNAUTHORIZED,
        error: "Your Token do not match with our API!"@,
        message: "Unathorized user!"@,
        flag: flag_for(Some(10)),
    }
}

/// One step of the authentication middleware. A request without a token is
/// `400`; a valid token passes when its user exists (`400` otherwise); an
/// expired one is `401`; any other is `401` and counted with weight ten
/// while the sender's count is within `max` (or cannot be read; an error
/// code of the cache is `500`), and passes once the count is above `max`.
pub open spec fn auth_step(stage: AuthStage, event: AuthEvent, max: u32) -> (AuthStage, AuthStep) {
    match (stage, event) {
        (AuthStage::Start, AuthEvent::Arrived { has_token }) => if has_token {
            (AuthStage::CheckingToken, AuthStep::CheckToken)
        } else {
            (
                AuthStage::Done,
                AuthStep::Reject {
                    status: STATUS_BAD_REQUEST,
                    error: "Authorization Header not found."@,
                    message: "No user Logged!"@,
                    flag: BruteForceFlag::NotCounted,
                },
            )
        },
        (AuthStage::CheckingToken, AuthEvent::TokenChecked(check)) => match check {
            TokenCheck::Valid(c) => (AuthStage::FindingUser, AuthStep::FindUser(c.sub@)),
            TokenCheck::Expired => (
                AuthStage::Done,
                AuthStep::Reject {
                    status: STATUS_UNAUTHORIZED,
                    error: "Your Token expired, please login again."@,
                    message: "Expired token!"@,
                    flag: BruteForceFlag::NotCounted,
                },
            ),
            TokenCheck::Invalid => (AuthStage::ReadingCount, AuthStep::ReadCount),
        },
        (AuthStage::FindingUser, AuthEvent::UserLooked { found }) => if found {
            (AuthStage::Done, AuthStep::Pass)
        } else {
            (
                AuthStage::Done,
                AuthStep::Reject {
                    status: STATUS_BAD_REQUEST,
                    error: "Some error raised on server side!"@,
                    message: "No user Logged!"@,
                    flag: BruteForceFlag::NotCounted,
                },
            )
        },
        (AuthStage::ReadingCount, AuthEvent::CountRead(read)) => match read {
            CountRead::Count(times) => if times <= max {
                (AuthStage::Done, token_mismatch())
            } else {
                (AuthStage::Done, AuthStep::Pass)
            },
            CountRead::Failed { coded } => if coded {
                (
                    AuthStage::Done,
                    AuthStep::Reject {
                        status: STATUS_INTERNAL_SERVER_ERROR,
                        error: "Some error raised on server side!"@,
                        message: "Server side error!"@,
                        flag: BruteForceFlag::NotCounted,
                    },
                )
            } else {
                (AuthStage::Done, token_mismatch())
            },
        },
        _ => (stage, AuthStep::Ignore),
    }
}

/// The action agrees with its mathematical form.
pub open spec fn action_is(a: AuthAction, s: AuthStep) -> bool {
    match s {
        AuthStep::CheckToken => a is CheckToken,
        AuthStep::FindUser(email) => a matches AuthAction::FindUser { email: e } && e@ == email,
        AuthStep::ReadCount => a is ReadCount,
        AuthStep::Pass => a is Pass,
        AuthStep::Reject { status, error, message, flag } => a matches AuthAction::Reject(r)
            && is_rejection(r, status, error, message, flag),
        AuthStep::Ignore => a is Ignore,
    }
}

fn mismatch_rejection() -> (res: AuthAction)
    ensures
        action_is(res, token_mismatch()),
{
    AuthAction::Reject(
        unauthorized_response("Your Token do not match with our API!", "Unathorized user!", Some(10)),
    )
}

/// Takes one step of the authentication middleware.
pub fn auth_middleware_step(stage: AuthStage, event: AuthEvent, max: u32) -> (res: (AuthStage, AuthAction))
    ensures
        res.0 == auth_step(stage, event, max).0,
        action_is(res.1, auth_step(stage, event, max).1),
        (match (stage, event) {
            (AuthStage::CheckingToken, AuthEvent::TokenChecked(TokenCheck::Valid(c))) => res.0 is FindingUser && (
            match res.1 {
                AuthAction::FindUser { email } => email@ == c.sub@,
                _ => false,
            }),
            _ => true,
        }),
{
    match (stage, event) {
        (AuthStage::Start, AuthEvent::Arrived { has_token }) => if has_token {
            (AuthStage::CheckingToken, AuthAction::CheckToken)
        } else {
            (
                AuthStage::Done,
                AuthAction::Reject(
                    bad_request_response("Authorization Header not found.", "No user Logged!", None),
                ),
            )
        },
        (AuthStage::CheckingToken, AuthEvent::TokenChecked(check)) => match check {
            TokenCheck::Valid(c) => (AuthStage::FindingUser, AuthAction::FindUser { email: c.sub }),
            TokenCheck::Expired => (
                AuthStage::Done,
                AuthAction::Reject(
                    unauthorized_response("Your Token expired, please login again.", "Expired token!", None),
                ),
            ),
            TokenCheck::Invalid => (AuthStage::ReadingCount, AuthAction::ReadCount),
        },
        (AuthStage::FindingUser, AuthEvent::UserLooked { found }) => if found {
            (AuthStage::Done, AuthAction::Pass)
        } else {
            (
                AuthStage::Done,
                AuthAction::Reject(
                    bad_request_response("Some error raised on server side!", "No user Logged!", None),
                ),
            )
        },
        (AuthStage::ReadingCount, AuthEvent::CountRead(read)) => match read {
            CountRead::Count(times) => if times <= max {
                (AuthStage::Done, mismatch_rejection())
            } else {
                (AuthStage::Done, AuthAction::Pass)
            },
            CountRead::Failed { coded } => if coded {
                (
                    AuthStage::Done,
                    AuthAction::Reject(
                        internal_server_error_response("Some error raised on server side!", "Server side error!"),
                    ),
                )
            } else {
                (AuthStage::Done, mismatch_rejection())
            },
        },
        (stage, _) => (stage, AuthAction::Ignore),
    }
}

/// The event is a count read above `max`.
pub open spec fn count_above(event: AuthEvent, max: u32) -> bool {
    match event {
        AuthEvent::CountRead(CountRead::Count(times)) => times > max,
        _ => false,
    }
}

/// The authentication middleware lets a request through only in two places:
/// when the user of a valid token exists, or when a bad token comes from a
/// sender whose count is above `max`.
pub proof fn auth_passes_only_known_users_or_counted_senders(stage: AuthStage, event: AuthEvent, max: u32)
    requires
        auth_step(stage, event, max).1 is Pass,
    ensures
        (stage is FindingUser && event == (AuthEvent::UserLooked { found: true })) || (stage is ReadingCount
            && count_above(event, max)),
{
}

/// The reading of the sender's count that the cache gave both the wall and
/// the authentication middleware.
pub open spec fn count_seen(read: CountRead) -> Option<u32> {
    match read {
        CountRead::Count(times) => Some(times),
        CountRead::Failed { .. } => None,
    }
}

/// Behind the wall, a bad token never gets through: when the wall lets a
/// sender in, the same count makes the authentication middleware refuse a
/// token that is neither valid nor expired.
pub proof fn wall_and_auth_refuse_bad_tokens(read: CountRead, max: u32)
    requires
        !wall_blocks(count_seen(read), max),
    ensures
        auth_step(AuthStage::ReadingCount, AuthEvent::CountRead(read), max).1 is Reject,
{
}

/// The kind of user that may use the administrative routes.
pub const ADMIN_USER_TYPE_ID: i32 = 1;

/// What the last outside step found, in the permission middleware.
pub enum PermissionEvent {
    /// The request arrived, with or without an `authorization` header.
    Arrived { has_token: bool },
    /// The token was checked.
    TokenChecked(TokenCheck),
    /// The token's user was looked up: the kind of the user found, if any.
    UserLooked { user_type_id: Option<i32> },
}

/// One step of the permission middleware: only a valid token whose user is
/// an administrator passes. A request without a token is `400`; a token
/// that does not check is `400` and counted with weight ten; a user that is
/// not found is `400`; a user of another kind is `401`.
pub open spec fn permission_step(stage: AuthStage, event: PermissionEvent) -> (AuthStage, AuthStep) {
    match (stage, event) {
        (AuthStage::Start, PermissionEvent::Arrived { has_token }) => if has_token {
            (AuthStage::CheckingToken, AuthStep::CheckToken)
        } else {
            (
                AuthStage::Done,
                AuthStep::Reject {
                    status: STATUS_BAD_REQUEST,
                    error: "Authorization Header not found."@,
                    message: "No user Logged!"@,
                    flag: BruteForceFlag::NotCounted,
                },
            )
        },
        (AuthStage::CheckingToken, PermissionEvent::TokenChecked(check)) => match check {
            TokenCheck::Valid(c) => (AuthStage::FindingUser, AuthStep::FindUser(c.sub@)),
            _ => (
                AuthStage::Done,
                AuthStep::Reject {
                    status: STATUS_BAD_REQUEST,
                    error: "Error decoding JWT Token!"@,
                    message: "Your JWT Token does not match to this API."@,
                    flag: flag_for(Some(10)),
                },
            ),
        },
        (AuthStage::FindingUser, PermissionEvent::UserLooked { user_type_id }) => match user_type_id {
            Some(kind) => if kind == ADMIN_USER_TYPE_ID {
                (AuthStage::Done, AuthStep::Pass)
            } else {
                (
                    AuthStage::Done,
                    AuthStep::Reject {
                        status: STATUS_UNAUTHORIZED,
                        error: "User has no permission to access this route (its admin only)."@,
                        message: "User has no permission to use this feature!"@,
                        flag: BruteForceFlag::NotCounted,
                    },
                )
            },
            None => (
                AuthStage::Done,
                AuthStep::Reject {
                    status: STATUS_BAD_REQUEST,
                    error: "Some Error raised at server side."@,
                    message: "No user Logged!"@,
                    flag: BruteForceFlag::NotCounted,
                },
            ),
        },
        _ => (stage, AuthStep::Ignore),
    }
}

/// Takes one step of the permission middleware.
pub fn permissions_middleware_step(stage: AuthStage, event: PermissionEvent) -> (res: (AuthStage, AuthAction))
    ensures
        res.0 == permission_step(stage, event).0,
        action_is(res.1, permission_step(stage, event).1),
        (match (stage, event) {
            (AuthStage::CheckingToken, PermissionEvent::TokenChecked(TokenCheck::Valid(c))) => res.0 is FindingUser && (
            match res.1 {
                AuthAction::FindUser { email } => email@ == c.sub@,
                _ => false,
            }),
            _ => true,
        }),
{
    match (stage, event) {
        (AuthStage::Start, PermissionEvent::Arrived { has_token }) => if has_token {
            (AuthStage::CheckingToken, AuthAction::CheckToken)
        } else {
            (
                AuthStage::Done,
                AuthAction::Reject(
                    bad_request_response("Authorization Header not found.", "No user Logged!", None),
                ),
            )
        },
        (AuthStage::CheckingToken, PermissionEvent::TokenChecked(check)) => match check {
            TokenCheck::Valid(c) => (AuthStage::FindingUser, AuthAction::FindUser { email: c.sub }),
            _ => (
                AuthStage::Done,
                AuthAction::Reject(
                    bad_request_response(
                        "Error decoding JWT Token!",
                        "Your JWT Token does not match to this API.",
                        Some(10),
                    ),
                ),
            ),
        },
        (AuthStage::FindingUser, PermissionEvent::UserLooked { user_type_id }) => match user_type_id {
            Some(kind) => if kind == ADMIN_USER_TYPE_ID {
                (AuthStage::Done, AuthAction::Pass)
            } else {
                (
                    AuthStage::Done,
                    AuthAction::Reject(
                        unauthorized_response(
                            "User has no permission to access this route (its admin only).",
                            "User has no permission to use this feature!",
                            None,
                        ),
                    ),
                )
            },
            None => (
                AuthStage::Done,
                AuthAction::Reject(
                    bad_request_response("Some Error raised at server side.", "No user Logged!", None),
                ),
            ),
        },
        (stage, _) => (stage, AuthAction::Ignore),
    }
}

/// The permission middleware lets a request through only when the token's
/// user is an administrator.
pub proof fn permissions_pass_only_admins(stage: AuthStage, event: PermissionEvent)
    requires
        permission_step(stage, event).1 is Pass,
    ensures
        stage is FindingUser,
        event == (PermissionEvent::UserLooked { user_type_id: Some(ADMIN_USER_TYPE_ID) }),
{
}

/// On a valid token the permission middleware looks up the user that the
/// token names as its subject, whatever the token's issuer and audience.
pub proof fn permissions_look_up_the_token_subject(c: Claims)
    ensures
        permission_step(AuthStage::CheckingToken, PermissionEvent::TokenChecked(TokenCheck::Valid(c)))
            == (AuthStage::FindingUser, AuthStep::FindUser(c.sub@)),
{
}

/// On a valid token the authentication middleware looks up the user that
/// the token names as its subject, whatever the token's issuer and audience
/// and the sender's count.
pub proof fn auth_looks_up_the_token_subject(c: Claims, max: u32)
    ensures
        auth_step(AuthStage::CheckingToken, AuthEvent::TokenChecked(TokenCheck::Valid(c)), max)
            == (AuthStage::FindingUser, AuthStep::FindUser(c.sub@)),
{
}

} // verus!
