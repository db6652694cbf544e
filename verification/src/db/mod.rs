//! Rows as the database stores and returns them.

pub mod timeframes;
pub mod users;
