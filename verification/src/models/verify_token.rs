use vstd::prelude::*;

verus! {

/// What a client submits to have a token verified.
#[derive(Debug, Clone)]
pub struct VerifyTokenRequest {
    pub token: String,
}

/// What a client is told when the token holds.
#[derive(Debug, Clone)]
pub struct VerifyTokenResponse {
    pub message: String,
}

} // verus!
