//! User rows.

use vstd::prelude::*;

verus! {

/// A user row: `password` is the encoded Argon2 hash, `tz` the name of the
/// user's time zone and `role` the number of the user's role.
#[derive(Debug)]
pub struct User {
    pub id: i32,
    pub username: String,
    pub password: String,
    pub name: String,
    pub tz: String,
    pub role: i32,
}

/// The values of a new user row; the database assigns the id.
#[derive(Debug)]
pub struct InsertUser {
    pub username: String,
    pub password: String,
    pub name: String,
    pub tz: String,
    pub role: i32,
}

} // verus!
