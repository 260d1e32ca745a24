//! Access tokens: their claims, signing them and checking them with
//! `jsonwebtoken` (HS256 with the API's secret, the API's name as audience
//! and its address as issuer).

use vstd::prelude::*;
use vstd::string::*;
use crate::model::opt_view;

verus! {

/// The claims of an access token: issuer, subject (the user's e-mail),
/// audience and expiry (seconds since the Unix epoch).
pub struct Claims {
    pub iss: String,
    pub sub: String,
    pub aud: String,
    pub exp: u64,
}

/// Seconds that a token stays valid after it is issued.
pub const TOKEN_LIFETIME_SECONDS: u64 = 3200;

/// The claims of a token issued at `now_secs` for `user_email` by the API
/// named `app_name` that listens on `app_address`.
pub open spec fn claims_spec(
    c: Claims,
    user_email: Seq<char>,
    app_name: Seq<char>,
    app_address: Seq<char>,
    now_secs: u64,
) -> bool {
    &&& c.iss@ == app_address
    &&& c.sub@ == user_email
    &&& c.aud@ == app_name
    &&& c.exp == now_secs + TOKEN_LIFETIME_SECONDS
}

impl Claims {
    /// The claims of a token issued now for `user_email`: the API's address
    /// as issuer, its name as audience, and an expiry `TOKEN_LIFETIME_SECONDS`
    /// after `now_secs`.
    pub fn for_user(user_email: String, app_name: &str, app_address: &str, now_secs: u64) -> (res:
        Claims)
        requires
            now_secs <= u64::MAX - TOKEN_LIFETIME_SECONDS,
        ensures
            claims_spec(res, user_email@, app_name@, app_address@, now_secs),
    {
        Claims {
            iss: String::from_str(app_address),
            sub: user_email,
            aud: String::from_str(app_name),
            exp: now_secs + TOKEN_LIFETIME_SECONDS,
        }
    }
}

/// What checking the token of a request found.
pub enum TokenCheck {
    /// The token is signed by the API, for its audience and issuer, and not expired.
    Valid(Claims),
    /// The token was valid but its expiry has passed.
    Expired,
    /// The token is not one of the API's, or cannot be read.
    Invalid,
}

/// The token that `jsonwebtoken::encode` writes with the default header
/// (`{"typ":"JWT","alg":"HS256"}`) for the claims object
/// `{"iss":..,"sub":..,"aud":..,"exp":..}`, in that order, signed with
/// HMAC-SHA256 under `secret`.
pub uninterp spec fn jwt_hs256(iss: Seq<char>, sub: Seq<char>, aud: Seq<char>, exp: u64, secret: Seq<u8>) -> Seq<char>;

/// Whether `token` is signed as HS256 with `secret`, as
/// `jsonwebtoken::decode` checks before it reads any claim or the clock: it
/// has at least two dots; the part before the second-to-last dot decodes
/// (base64url) to a JSON header whose `alg` is `HS256`; and the part after
/// the last dot is the unpadded base64url of the HMAC-SHA256, under
/// `secret`, of everything before that dot.
pub uninterp spec fn hs256_signed(token: Seq<char>, secret: Seq<u8>) -> bool;

/// `jsonwebtoken::encode` of the claims with the default header and an HMAC
/// key made from `secret`. It succeeds: `encode` fails only where the key's
/// family differs from the header's algorithm (both HMAC here) or where
/// `serde_json` cannot write the claims (never for a map of strings and an
/// integer), and HMAC signing does not fail.
#[verifier::external_body]
fn sign_hs256(c: &Claims, secret: &[u8]) -> (res: Result<String, String>)
    ensures
        res is Ok,
        res matches Ok(t) ==> t@ == jwt_hs256(c.iss@, c.sub@, c.aud@, c.exp, secret@),
        res matches Ok(t) ==> hs256_signed(t@, secret@),
{
    let mut claims = serde_json::Map::new();
    claims.insert(String::from("iss"), serde_json::Value::String(c.iss.clone()));
    claims.insert(String::from("sub"), serde_json::Value::String(c.sub.clone()));
    claims.insert(String::from("aud"), serde_json::Value::String(c.aud.clone()));
    claims.insert(String::from("exp"), serde_json::Value::from(c.exp));
    let key = jsonwebtoken::EncodingKey::from_secret(secret);
    match jsonwebtoken::encode(&jsonwebtoken::Header::default(), &claims, &key) {
        Ok(t) => Ok(t),
        Err(e) => Err(e.to_string()),
    }
}

/// The token issued at `now_secs` for `user_email` by the API named
/// `app_name` at `app_address`, signed with `secret`.
pub open spec fn issued_token(
    user_email: Seq<char>,
    app_name: Seq<char>,
    app_address: Seq<char>,
    now_secs: u64,
    secret: Seq<u8>,
) -> Seq<char> {
    jwt_hs256(app_address, user_email, app_name, (now_secs + TOKEN_LIFETIME_SECONDS) as u64, secret)
}

/// Signs the access token of `user_email`, issued at `now_secs`: the API's
/// address as issuer, its name as audience, an expiry
/// `TOKEN_LIFETIME_SECONDS` later.
pub fn encode_jwt(user_email: String, app_name: &str, app_address: &str, secret: &[u8], now_secs: u64) -> (res: String)
    requires
        now_secs <= u64::MAX - TOKEN_LIFETIME_SECONDS,
    ensures
        res@ == issued_token(user_email@, app_name@, app_address@, now_secs, secret@),
        hs256_signed(res@, secret@),
{
    let claims = Claims::for_user(user_email, app_name, app_address, now_secs);
    match sign_hs256(&claims, secret) {
        Ok(t) => t,
        Err(e) => e,
    }
}

/// What `jsonwebtoken::decode` made of a token: the claims object's `iss`,
/// `sub` and `aud` where they are strings and `exp` where it is an unsigned
/// integer; or the token had expired; or it was refused for another reason.
pub enum JwtCheck {
    /// The token passed; its claims, each where it has the expected type.
    Valid { iss: Option<String>, sub: Option<String>, aud: Option<String>, exp: Option<u64> },
    /// The signature and shape were right but the expiry has passed.
    Expired,
    /// Refused for any other reason.
    Invalid,
}

/// `jsonwebtoken::decode` of `token` with an HMAC key made from `secret` and
/// a validation for HS256 with `app_name` as the one audience and
/// `app_address` as the one issuer (and `exp` required and checked against
/// the clock, with sixty seconds of leeway). The outcome depends on the
/// clock, so only this is stated: a token that is not signed as HS256 with
/// `secret` is refused as invalid (the header's algorithm and the signature
/// are checked first, and only their failure or a later check can refuse
/// it; an expiry is reported only once the signature has passed); a token
/// that passes carries the audience
/// and the issuer where it has them (`validate` refuses a string claim that
/// is not in the sets given); and a token that `encode` wrote with that
/// secret, issuer and audience is either accepted with the claims it was
/// written with or refused as expired (its header names HS256, its
/// signature matches, and the only check left that depends on more than
/// the token is the expiry).
#[verifier::external_body]
fn check_hs256(token: &str, secret: &[u8], app_name: &str, app_address: &str) -> (res: JwtCheck)
    ensures
        !hs256_signed(token@, secret@) ==> res is Invalid,
        res matches JwtCheck::Valid { iss, aud, .. } ==> (iss matches Some(i) ==> i@ == app_address@) && (
        aud matches Some(a) ==> a@ == app_name@),
        forall|sub: Seq<char>, exp: u64|
            #[trigger] jwt_hs256(app_address@, sub, app_name@, exp, secret@) == token@ ==> (res is Expired || (
            res matches JwtCheck::Valid { iss, sub: s, aud, exp: e } && opt_view(iss) == Some(app_address@)
                && opt_view(s) == Some(sub) && opt_view(aud) == Some(app_name@) && e == Some(exp))),
{
    let key = jsonwebtoken::DecodingKey::from_secret(secret);
    let mut validation = jsonwebtoken::Validation::new(jsonwebtoken::Algorithm::HS256);
    validation.set_audience(&[app_name]);
    validation.set_issuer(&[app_address]);
    match jsonwebtoken::decode::<serde_json::Value>(token, &key, &validation) {
        Ok(d) => JwtCheck::Valid {
            iss: d.claims["iss"].as_str().map(String::from),
            sub: d.claims["sub"].as_str().map(String::from),
            aud: d.claims["aud"].as_str().map(String::from),
            exp: d.claims["exp"].as_u64(),
        },
        Err(e) => match e.kind() { jsonwebtoken::errors::ErrorKind::ExpiredSignature => JwtCheck::Expired, _ => JwtCheck::Invalid },
    }
}

/// The check of a request's token that an outcome of `jsonwebtoken::decode`
/// gives: valid claims when the token passed and carries all four claims,
/// expired when it had expired, not valid otherwise.
pub fn token_check_from(outcome: JwtCheck) -> (res: TokenCheck)
    ensures
        match outcome {
            JwtCheck::Valid { iss, sub, aud, exp } => if iss is Some && sub is Some && aud is Some && exp is Some {
                res matches TokenCheck::Valid(c) && Some(c.iss@) == opt_view(iss) && Some(c.sub@) == opt_view(sub)
                    && Some(c.aud@) == opt_view(aud) && Some(c.exp) == exp
            } else {
                res is Invalid
            },
            JwtCheck::Expired => res is Expired,
            JwtCheck::Invalid => res is Invalid,
        },
{
    match outcome {
        JwtCheck::Valid { iss: Some(iss), sub: Some(sub), aud: Some(aud), exp: Some(exp) } => TokenCheck::Valid(
            Claims { iss, sub, aud, exp },
        ),
        JwtCheck::Valid { .. } => TokenCheck::Invalid,
        JwtCheck::Expired => TokenCheck::Expired,
        JwtCheck::Invalid => TokenCheck::Invalid,
    }
}

/// What holds of every check of `token` against the API's secret, name and
/// address, whatever the clock reads: a token not signed with the secret is
/// refused as invalid; valid claims name the API as issuer and audience;
/// and a token that the API signed for a subject and an expiry reads back
/// as those claims unless it has expired.
pub open spec fn token_check_allowed(
    token: Seq<char>,
    secret: Seq<u8>,
    app_name: Seq<char>,
    app_address: Seq<char>,
    res: TokenCheck,
) -> bool {
    &&& !hs256_signed(token, secret) ==> res is Invalid
    &&& res matches TokenCheck::Valid(c) ==> c.iss@ == app_address && c.aud@ == app_name
    &&& forall|sub: Seq<char>, exp: u64|
        #[trigger] jwt_hs256(app_address, sub, app_name, exp, secret) == token ==> (res is Expired || (
        res matches TokenCheck::Valid(c) && c.sub@ == sub && c.exp == exp))
}

/// Checks the token of a request against the API's secret, name and
/// address.
pub fn decode_jwt(token: &str, secret: &[u8], app_name: &str, app_address: &str) -> (res: TokenCheck)
    ensures
        token_check_allowed(token@, secret@, app_name@, app_address@, res),
{
    let outcome = check_hs256(token, secret, app_name, app_address);
    token_check_from(outcome)
}

/// A token issued at login reads back, as long as it has not expired, as
/// the claims it was issued with: the user's e-mail as subject, the API as
/// issuer and audience, and the expiry `TOKEN_LIFETIME_SECONDS` after the
/// login.
pub proof fn issued_token_reads_back(
    user_email: Seq<char>,
    app_name: Seq<char>,
    app_address: Seq<char>,
    now_secs: u64,
    secret: Seq<u8>,
    res: TokenCheck,
)
    requires
        now_secs <= u64::MAX - TOKEN_LIFETIME_SECONDS,
        token_check_allowed(issued_token(user_email, app_name, app_address, now_secs, secret), secret, app_name, app_address, res),
    ensures
        res is Expired || (res matches TokenCheck::Valid(c) && claims_spec(c, user_email, app_name, app_address, now_secs)),
{
    let exp = (now_secs + TOKEN_LIFETIME_SECONDS) as u64;
    assert(jwt_hs256(app_address, user_email, app_name, exp, secret) == issued_token(
        user_email,
        app_name,
        app_address,
        now_secs,
        secret,
    ));
}

/// Only a token signed with the API's secret authenticates a request: one
/// that is not (another key, another algorithm, not a token at all) is
/// refused as invalid, never read as claims nor reported as expired.
pub proof fn unsigned_tokens_are_refused(
    token: Seq<char>,
    secret: Seq<u8>,
    app_name: Seq<char>,
    app_address: Seq<char>,
    res: TokenCheck,
)
    requires
        token_check_allowed(token, secret, app_name, app_address, res),
        !hs256_signed(token, secret),
    ensures
        res is Invalid,
{
}

/// A token that reads back as valid claims or as expired is signed with
/// the API's secret.
pub proof fn accepted_tokens_are_signed(
    token: Seq<char>,
    secret: Seq<u8>,
    app_name: Seq<char>,
    app_address: Seq<char>,
    res: TokenCheck,
)
    requires
        token_check_allowed(token, secret, app_name, app_address, res),
        !(res is Invalid),
    ensures
        hs256_signed(token, secret),
{
}

} // verus!
