//! Issues, verifies and revokes proof of identity: credential storage with
//! password hashing, signed session tokens, one-time second-factor challenges
//! and a revoked-token registry, composed by the authentication flows in
//! [`routes`].

pub mod guarantees;
pub mod models;
pub mod routes;
pub mod services;
pub mod utils;

use vstd::prelude::*;
use vstd::string::*;

verus! {

/// The body of an answer that reports a failure.
#[derive(Debug)]
pub struct ErrorResponse {
    pub error: String,
}

/// The body of the answer to a registration.
#[derive(Debug)]
pub struct SignupResponse {
    pub message: String,
}

/// The lines that name the first `upto` causes of an error, one line each.
pub open spec fn caused_by(causes: Seq<String>, upto: int) -> Seq<char>
    decreases upto,
{
    if upto <= 0 {
        Seq::empty()
    } else {
        caused_by(causes, upto - 1) + "Caused by: "@ + causes[upto - 1]@ + "\n"@
    }
}

/// The report on an error and the chain of its causes: a rule, the error,
/// one line for each cause from the nearest on, and a rule again.
pub open spec fn error_report(error: Seq<char>, causes: Seq<String>) -> Seq<char> {
    "\n------------------------------\n"@ + error + "\n"@ + caused_by(
        causes,
        causes.len() as int,
    ) + "\n------------------------------\n"@
}

/// Writes the report on an error for the log. `error` is the error as it
/// prints, `causes` are its causes as they print, the nearest first.
pub fn log_error_chain(error: &str, causes: &Vec<String>) -> (report: String)
    ensures
        report@ == error_report(error@, causes@),
{
    let separator = "\n------------------------------\n";
    let mut report = separator.to_string();
    report.append(error);
    report.append("\n");
    let ghost head = report@;
    let mut i: usize = 0;
    while i < causes.len()
        invariant
            i <= causes.len(),
            report@ == head + caused_by(causes@, i as int),
        decreases causes.len() - i,
    {
        report.append("Caused by: ");
        report.append(causes[i].as_str());
        report.append("\n");
        i += 1;
        assert(report@ =~= head + caused_by(causes@, i as int));
    }
    report.append(separator);
    assert(report@ =~= error_report(error@, causes@));
    report
}

} // verus!
