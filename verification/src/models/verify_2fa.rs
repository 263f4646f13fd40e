use vstd::prelude::*;

use crate::models::data_store::LoginAttemptId;
use crate::models::email::Email;

verus! {

/// What a client submits to confirm a second factor. It holds a one-time
/// code, so it does not print.
pub struct Verify2FARequest {
    pub email: Email,
    pub login_attempt_id: LoginAttemptId,
    /// The one-time code as typed.
    pub token: String,
}

/// What a client is told when the second factor is confirmed.
#[derive(Debug, Clone)]
pub struct Verify2FAResponse {
    pub message: String,
}

} // verus!
