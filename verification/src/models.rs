//! The data model: identities, secrets, accounts and the store interfaces.

pub mod data_store;
pub mod email;
pub mod email_client;
pub mod error;
pub mod login;
pub mod password;
pub mod signup;
pub mod user;
pub mod verify_2fa;
pub mod verify_token;
