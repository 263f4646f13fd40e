use vstd::prelude::*;

use crate::models::email::Email;

verus! {

/// Why a message was not delivered.
#[derive(Debug, Clone)]
pub enum EmailClientError {
    SendError(String),
    InvalidRecipient,
    InternalServerError,
}

/// The capability to deliver one message out of band. Delivery depends on
/// the outside world, so nothing is promised of the answer unless the client
/// says of itself that it cannot fail.
pub trait EmailClient {
    /// Whether the client cannot fail. A client says so only where it is
    /// true; one that says nothing is taken to be able to fail.
    open spec fn dependable(&self) -> bool {
        false
    }

    fn send_email(&self, to: &Email, subject: &str, body: &str) -> (r: Result<(), EmailClientError>)
        ensures
            self.dependable() ==> r is Ok,
    ;
}

} // verus!
