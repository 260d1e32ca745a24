//! Logging in and checking a token: the decisions of the authentication
//! endpoints, once the user has been looked up by e-mail.

use vstd::prelude::*;
use vstd::string::*;
use crate::auth::TokenCheck;
use crate::http::{STATUS_CONFLICT, STATUS_NOT_FOUND, STATUS_OK, STATUS_UNAUTHORIZED};
use crate::model::{User, UserView, opt_view};
use crate::passwords::{bcrypt_verdict, verify_password};
use crate::responses::{
    AuthLoginError, AuthLoginResponse, Body, Guard, Reply, generic_error_reply,
    generic_message_reply, is_generic_error, is_generic_message,
};
use crate::two_factor::{check_second_factor, second_factor_verdict};

verus! {

/// What the login endpoint does, written with mathematical values.
pub enum LoginVerdict {
    /// Answer with an `AuthLoginError` body.
    Refuse { status: u16, message: Seq<char>, error: Seq<char>, guard: Guard },
    /// The second factor was wrong: `401`, a message, and a failed attempt of weight two.
    ChallengeFailed,
    /// Issue a token for the e-mail.
    Issue { email: Seq<char>, guard: Guard },
    /// The handler cannot go on (the stored hash or secret is unusable).
    Fault,
}

/// The outcome of a correct password for a user with a confirmed second
/// factor: the code given (empty when none was) is checked.
pub open spec fn second_factor_step(u: UserView, code: Seq<char>, app_name: Seq<char>, now_secs: u64) -> LoginVerdict {
    match u.two_factor_secret {
        None => LoginVerdict::Fault,
        Some(secret) => match second_factor_verdict(secret, app_name, u.email, code, now_secs) {
            None => LoginVerdict::Fault,
            Some(true) => LoginVerdict::Issue { email: u.email, guard: Guard::Cleared },
            Some(false) => LoginVerdict::ChallengeFailed,
        },
    }
}

/// The code given, or the empty text when none was.
pub open spec fn code_or_empty(code: Option<Seq<char>>) -> Seq<char> {
    match code {
        Some(c) => c,
        None => Seq::empty(),
    }
}

/// The login decision: an unknown e-mail is `404`; a user without a
/// password is `409`; a wrong password is `404` and a failed attempt; a
/// right one issues a token, after the second factor when the user confirmed
/// one (which also clears the sender's count).
pub open spec fn login_verdict(
    user: Option<UserView>,
    password: Seq<char>,
    code: Option<Seq<char>>,
    app_name: Seq<char>,
    now_secs: u64,
) -> LoginVerdict {
    match user {
        None => LoginVerdict::Refuse {
            status: STATUS_NOT_FOUND,
            message: "Error trying to login!"@,
            error: "Invalid email or password."@,
            guard: Guard::Untouched,
        },
        Some(u) => match u.password {
            None => LoginVerdict::Refuse {
                status: STATUS_CONFLICT,
                message: "You have not set your user password yet!"@,
                error: if u.two_factor_confirmed_at is Some {
                    "Error trying update user!"@
                } else {
                    "Error trying to login"@
                },
                guard: Guard::Untouched,
            },
            Some(hash) => match bcrypt_verdict(password, hash) {
                Err(_) => LoginVerdict::Fault,
                Ok(false) => LoginVerdict::Refuse {
                    status: STATUS_NOT_FOUND,
                    message: "Error trying to Login!"@,
                    error: "Invalid email or password."@,
                    guard: Guard::Counted(None),
                },
                Ok(true) => if u.two_factor_confirmed_at is Some {
                    second_factor_step(u, code_or_empty(code), app_name, now_secs)
                } else {
                    LoginVerdict::Issue { email: u.email, guard: Guard::Untouched }
                },
            },
        },
    }
}

/// What the login endpoint decided.
pub enum LoginDecision {
    /// Answer with this reply.
    Refuse(Reply),
    /// Issue a token for this e-mail, with this effect on the sender's count.
    IssueToken { email: String, guard: Guard },
}

/// The decision agrees with the verdict.
pub open spec fn decision_is(res: Option<LoginDecision>, v: LoginVerdict) -> bool {
    match v {
        LoginVerdict::Fault => res is None,
        LoginVerdict::Refuse { status, message, error, guard } => match res {
            Some(LoginDecision::Refuse(r)) => r.status == status && r.guard == guard && (match r.body {
                Body::LoginFailed(b) => b.message@ == message && b.error@ == error,
                _ => false,
            }),
            _ => false,
        },
        LoginVerdict::ChallengeFailed => match res {
            Some(LoginDecision::Refuse(r)) => is_generic_message(
                r,
                STATUS_UNAUTHORIZED,
                "2FA challenge failed! Try again."@,
            ) && r.guard == Guard::Counted(Some(2)),
            _ => false,
        },
        LoginVerdict::Issue { email, guard } => match res {
            Some(LoginDecision::IssueToken { email: e, guard: g }) => e@ == email && g == guard,
            _ => false,
        },
    }
}

fn login_error(status: u16, message: &str, error: &str, guard: Guard) -> (res: LoginDecision)
    ensures
        res matches LoginDecision::Refuse(r) && r.status == status && r.guard == guard && (match r.body {
            Body::LoginFailed(b) => b.message@ == message@ && b.error@ == error@,
            _ => false,
        }),
{
    LoginDecision::Refuse(
        Reply {
            status,
            body: Body::LoginFailed(
                AuthLoginError { message: String::from_str(message), error: String::from_str(error) },
            ),
            guard,
        },
    )
}

/// Decides a login for the user found by the e-mail of the body (`None` when
/// there is none), given the body's password and code, the API's name and
/// the clock in seconds. `None` where the handler cannot go on: the stored
/// hash is malformed, or the user confirmed a second factor whose stored
/// secret is missing, does not decode or is refused, or whose check the
/// clock is out of range for.
pub fn login_decision(user: Option<&User>, password: &str, code: Option<&str>, app_name: &str, now_secs: u64) -> (res: Option<LoginDecision>)
    ensures
        decision_is(
            res,
            login_verdict(
                match user {
                    Some(u) => Some(u@),
                    None => None,
                },
                password@,
                match code {
                    Some(c) => Some(c@),
                    None => None,
                },
                app_name@,
                now_secs,
            ),
        ),
{
    let u = match user {
        None => {
            return Some(
                login_error(STATUS_NOT_FOUND, "Error trying to login!", "Invalid email or password.", Guard::Untouched),
            );
        },
        Some(u) => u,
    };
    let confirmed = u.two_factor_confirmed_at.is_some();
    let hash = match &u.password {
        None => {
            let error = if confirmed {
                "Error trying update user!"
            } else {
                "Error trying to login"
            };
            return Some(
                login_error(STATUS_CONFLICT, "You have not set your user password yet!", error, Guard::Untouched),
            );
        },
        Some(h) => h,
    };
    let matches = match verify_password(password, hash.as_str()) {
        Err(_) => return None,
        Ok(m) => m,
    };
    if !matches {
        return Some(
            login_error(STATUS_NOT_FOUND, "Error trying to Login!", "Invalid email or password.", Guard::Counted(None)),
        );
    }
    if !confirmed {
        return Some(LoginDecision::IssueToken { email: u.email.clone(), guard: Guard::Untouched });
    }
    let secret = match &u.two_factor_secret {
        None => return None,
        Some(s) => s,
    };
    let given = match code {
        Some(c) => c,
        None => "",
    };
    assert(given@ == code_or_empty(
        match code {
            Some(c) => Some(c@),
            None => None,
        },
    )) by {
        reveal_strlit("");
    }
    match check_second_factor(secret.as_str(), app_name, u.email.as_str(), given, now_secs) {
        None => None,
        Some(true) => Some(LoginDecision::IssueToken { email: u.email.clone(), guard: Guard::Cleared }),
        Some(false) => Some(
            LoginDecision::Refuse(
                generic_message_reply(STATUS_UNAUTHORIZED, "2FA challenge failed! Try again.", Guard::Counted(Some(2))),
            ),
        ),
    }
}

/// The `200` reply that hands a freshly issued token to the user.
pub fn login_success_reply(token: String, guard: Guard) -> (res: Reply)
    ensures
        res.status == STATUS_OK,
        res.guard == guard,
        res.body matches Body::LoginSucceeded(b) && b.message@ == "Login successful"@ && opt_view(b.token) == Some(token@),
{
    Reply {
        status: STATUS_OK,
        body: Body::LoginSucceeded(
            AuthLoginResponse { message: String::from_str("Login successful"), token: Some(token) },
        ),
        guard,
    }
}

/// The reply of the token-checking endpoint: the claims of a valid token
/// whose user exists (`user_found`), `401` otherwise.
pub fn validate_token_reply(check: TokenCheck, user_found: bool) -> (res: Reply)
    ensures
        match check {
            TokenCheck::Valid(c) => if user_found {
                &&& res.status == STATUS_OK
                &&& res.guard == Guard::Untouched
                &&& res.body matches Body::Claims(got) && got == c
            } else {
                is_generic_error(res, STATUS_UNAUTHORIZED, "No user Logged"@, "Some error raised on server side!"@)
            },
            _ => is_generic_error(res, STATUS_UNAUTHORIZED, "No user Logged"@, "Some error raised on server side!"@),
        },
{
    match check {
        TokenCheck::Valid(claims) => if user_found {
            Reply { status: STATUS_OK, body: Body::Claims(claims), guard: Guard::Untouched }
        } else {
            generic_error_reply(STATUS_UNAUTHORIZED, "No user Logged", "Some error raised on server side!")
        },
        _ => generic_error_reply(STATUS_UNAUTHORIZED, "No user Logged", "Some error raised on server side!"),
    }
}

/// A wrong password is always refused with `404` and counted as a failed
/// attempt of the sender, whether or not the user has a second factor.
pub proof fn wrong_password_is_counted(
    u: UserView,
    hash: Seq<char>,
    password: Seq<char>,
    code: Option<Seq<char>>,
    app_name: Seq<char>,
    now_secs: u64,
)
    requires
        u.password == Some(hash),
        bcrypt_verdict(password, hash) == Ok::<bool, Seq<char>>(false),
    ensures
        login_verdict(Some(u), password, code, app_name, now_secs) == (LoginVerdict::Refuse {
            status: STATUS_NOT_FOUND,
            message: "Error trying to Login!"@,
            error: "Invalid email or password."@,
            guard: Guard::Counted(None),
        }),
{
}

/// An e-mail that belongs to no user is refused with `404` and the same
/// error text as a wrong password, and is not counted against the sender.
pub proof fn unknown_email_is_not_counted(password: Seq<char>, code: Option<Seq<char>>, app_name: Seq<char>, now_secs: u64)
    ensures
        login_verdict(None, password, code, app_name, now_secs) == (LoginVerdict::Refuse {
            status: STATUS_NOT_FOUND,
            message: "Error trying to login!"@,
            error: "Invalid email or password."@,
            guard: Guard::Untouched,
        }),
{
}

} // verus!
