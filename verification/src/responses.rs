//! The bodies that the handlers answer with, and the reply that pairs a
//! body with its status and with what the reply does to the sender's count
//! of failed attempts.

use vstd::prelude::*;
use crate::auth::Claims;
use crate::http::GenericError;
use crate::http::GenericResponse;
use crate::model::{Product, User, UserDTOMin};
use crate::validation::FieldError;

pub mod auth_login_response;

verus! {

/// A successful login: the message and the access token.
pub struct AuthLoginResponse {
    pub message: String,
    pub token: Option<String>,
}

/// A refused login.
pub struct AuthLoginError {
    pub message: String,
    pub error: String,
}

/// The e-mail that was sent.
pub struct EmailSendRequest {
    pub title: String,
    pub content: String,
    pub to: String,
}

/// A sent e-mail.
pub struct EmailSentResponse {
    pub message: String,
    pub email: EmailSendRequest,
}

/// An e-mail that could not be sent.
pub struct EmailSendError {
    pub message: String,
    pub error: String,
}

/// A page of products.
pub struct ProductIndexResponse {
    pub message: String,
    pub products: Vec<Product>,
    pub current_page: Option<u32>,
    pub per_page: Option<u32>,
}

/// A listing of products that failed.
pub struct ProductIndexError {
    pub message: String,
    pub error: String,
}

/// A stored product.
pub struct ProductStoreResponse {
    pub message: String,
    pub product: Product,
}

/// A product that could not be stored.
pub struct ProductStoreError {
    pub message: String,
    pub error: String,
}

/// A changed, deleted or restored product.
pub struct ProductUpdateResponse {
    pub message: String,
    pub product: Product,
}

/// A deleted account.
pub struct UserDeleteResponse {
    pub message: String,
    pub email: String,
}

/// An account that could not be deleted.
pub struct UserDeleteError {
    pub message: String,
    pub error: String,
}

/// A second factor ready to be confirmed: the QR code (a base64 PNG) and
/// the setup key.
pub struct UserEnable2FAResponse {
    pub message: String,
    pub qrcode: String,
    pub config_code: String,
}

/// A second factor that could not be prepared.
pub struct UserEnable2FAError {
    pub message: String,
    pub error: String,
}

/// A page of users.
pub struct UserIndexResponse {
    pub message: String,
    pub users: Vec<UserDTOMin>,
    pub current_page: Option<u32>,
    pub per_page: Option<u32>,
}

/// A listing of users that failed.
pub struct UserIndexError {
    pub message: String,
    pub error: String,
}

/// A registered user.
pub struct UserStoreResponse {
    pub message: String,
    pub user: User,
}

/// A user that could not be registered.
pub struct UserStoreError {
    pub message: String,
    pub error: String,
}

/// A changed user.
pub struct UserUpdateResponse {
    pub message: String,
    pub user: User,
}

/// A user that could not be changed.
pub struct UserUpdateError {
    pub message: String,
    pub error: String,
}

/// The body of a reply.
pub enum Body {
    Message(GenericResponse),
    Error(GenericError),
    Invalid(Vec<FieldError>),
    Claims(Claims),
    Text(String),
    LoginSucceeded(AuthLoginResponse),
    LoginFailed(AuthLoginError),
    EmailSent(EmailSentResponse),
    EmailFailed(EmailSendError),
    ProductPage(ProductIndexResponse),
    ProductStored(ProductStoreResponse),
    ProductStoreFailed(ProductStoreError),
    ProductChanged(ProductUpdateResponse),
    UserDeleted(UserDeleteResponse),
    UserDeleteFailed(UserDeleteError),
    TwoFactorPrepared(UserEnable2FAResponse),
    UserPage(UserIndexResponse),
    UserStored(UserStoreResponse),
    UserStoreFailed(UserStoreError),
    UserChanged(UserUpdateResponse),
    UserChangeFailed(UserUpdateError),
}

/// What a reply does to the count of failed attempts of its sender.
pub enum Guard {
    /// Nothing.
    Untouched,
    /// One more failed attempt, with the weight given, if any.
    Counted(Option<i16>),
    /// The count is removed.
    Cleared,
}

/// A status, a body and the effect on the sender's count.
pub struct Reply {
    pub status: u16,
    pub body: Body,
    pub guard: Guard,
}

/// A reply with a `{message, error}` body of the kind `GenericError`.
pub open spec fn is_generic_error(r: Reply, status: u16, message: Seq<char>, error: Seq<char>) -> bool {
    &&& r.status == status
    &&& r.guard == Guard::Untouched
    &&& r.body matches Body::Error(e) && e.message@ == message && e.error@ == error
}

/// A reply with a message-only body.
pub open spec fn is_generic_message(r: Reply, status: u16, message: Seq<char>) -> bool {
    &&& r.status == status
    &&& r.body matches Body::Message(m) && m.message@ == message
}

/// A `400` reply that lists the broken rules.
pub open spec fn is_invalid_body(r: Reply, errors: Seq<crate::validation::FieldErrorView>) -> bool {
    &&& r.status == crate::http::STATUS_BAD_REQUEST
    &&& r.guard == Guard::Untouched
    &&& r.body matches Body::Invalid(found) && crate::validation::errors_view(found@) == errors
}

/// The `400` reply to a body that broke `errors`.
pub fn invalid_body_reply(errors: Vec<FieldError>) -> (res: Reply)
    ensures
        is_invalid_body(res, crate::validation::errors_view(errors@)),
{
    Reply { status: crate::http::STATUS_BAD_REQUEST, body: Body::Invalid(errors), guard: Guard::Untouched }
}

/// A reply with a `GenericError` body and no effect on the count.
pub fn generic_error_reply(status: u16, message: &str, error: &str) -> (res: Reply)
    ensures
        is_generic_error(res, status, message@, error@),
{
    Reply { status, body: Body::Error(GenericError::new(message, error)), guard: Guard::Untouched }
}

/// A reply with a message-only body and the given effect on the count.
pub fn generic_message_reply(status: u16, message: &str, guard: Guard) -> (res: Reply)
    ensures
        is_generic_message(res, status, message@),
        res.guard == guard,
{
    Reply { status, body: Body::Message(GenericResponse::new(message)), guard }
}

} // verus!
