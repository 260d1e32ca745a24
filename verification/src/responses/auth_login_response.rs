//! The login reply as a client reads it back.

use vstd::prelude::*;

verus! {

/// A login reply: the message and, on success, the access token.
#[derive(Clone)]
pub struct AuthLoginResponse {
    pub message: String,
    pub token: Option<String>,
}

} // verus!
