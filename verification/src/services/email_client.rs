use vstd::prelude::*;

use crate::models::email::Email;
use crate::models::email_client::{EmailClient, EmailClientError};

verus! {

/// A client that delivers nothing and always reports success.
#[derive(Debug)]
pub struct MockEmailClient;

impl EmailClient for MockEmailClient {
    open spec fn dependable(&self) -> bool {
        true
    }

    fn send_email(&self, to: &Email, subject: &str, body: &str) -> (r: Result<
        (),
        EmailClientError,
    >) {
        Ok(())
    }
}

} // verus!
