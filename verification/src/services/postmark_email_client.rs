use vstd::prelude::*;
use vstd::string::*;

use crate::models::email::{Email, SendEmailRequest};
use crate::models::email_client::EmailClientError;
use crate::utils::constants::MESSAGE_STREAM;
use crate::utils::text::joined;

verus! {

/// Where mail is sent when no other base address is given.
pub const DEFAULT_BASE_URL: &'static str = "https://api.postmarkapp.com";

/// The base address to use: the one given, or [`DEFAULT_BASE_URL`].
pub fn resolve_base_url(base_url: Option<String>) -> (r: String)
    ensures
        r@ == (match base_url {
            Some(given) => given@,
            None => DEFAULT_BASE_URL@,
        }),
{
    match base_url {
        Some(given) => given,
        None => DEFAULT_BASE_URL.to_string(),
    }
}

/// The address that a message is posted to.
pub fn email_endpoint(base_url: &str) -> (r: String)
    ensures
        r@ == base_url@ + "/email"@,
{
    joined(base_url, "/email")
}

/// The body of the request that sends one message. The text part repeats the
/// HTML part.
pub fn build_request<'a>(
    sender: &'a Email,
    recipient: &'a Email,
    subject: &'a str,
    html_body: &'a str,
) -> (r: SendEmailRequest<'a>)
    ensures
        r.from@ == sender@,
        r.to@ == recipient@,
        r.subject@ == subject@,
        r.html_body@ == html_body@,
        r.text_body@ == html_body@,
        r.message_stream@ == MESSAGE_STREAM@,
{
    SendEmailRequest {
        from: sender.as_str(),
        to: recipient.as_str(),
        subject,
        html_body,
        text_body: html_body,
        message_stream: MESSAGE_STREAM,
    }
}

/// What a delivery comes to, given whether the service answered with a
/// success status and, where it did not, the text of its answer.
pub fn delivery_result(success: bool, error_text: &str) -> (r: Result<(), EmailClientError>)
    ensures
        success ==> r is Ok,
        !success ==> (r matches Err(EmailClientError::SendError(message)) && message@
            == "Falha ao enviar o email. Erro: "@ + error_text@),
{
    if success {
        Ok(())
    } else {
        Err(EmailClientError::SendError(joined("Falha ao enviar o email. Erro: ", error_text)))
    }
}

} // verus!
