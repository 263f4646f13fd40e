//! The stores that keep their data in process memory, and the rules of the
//! adapters that keep it elsewhere.

pub mod data_stores;
pub mod email_client;
pub mod hashmap_2fa_code_store;
pub mod hashmap_banned_token_store;
pub mod hashmap_user_store;
pub mod postmark_email_client;
pub mod redis_2fa_code_store;
pub mod redis_banner_token_store;
