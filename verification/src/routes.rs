//! The operations of the service, one for each endpoint that it backs.

pub mod login;
pub mod logout;
pub mod signup;
pub mod verify_2fa;
pub mod verify_token;
