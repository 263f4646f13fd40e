//! Helpers for the stores that keep their data in a database.

pub mod db;
