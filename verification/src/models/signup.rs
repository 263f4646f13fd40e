use vstd::prelude::*;

verus! {

/// What a client submits to register. It holds a raw secret, so it does not
/// print.
pub struct SignupRequest {
    pub email: String,
    pub password: String,
    pub requires_2_fa: bool,
}

} // verus!
