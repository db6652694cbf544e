//! Verified core of the Mirror Four scheduling API: user roles, login
//! selection, password hashing, session keys and the conversion of weekly
//! timeframes between a user's time zone and UTC.

pub mod types;
pub mod time;
pub mod db;
pub mod api;
pub mod session;
