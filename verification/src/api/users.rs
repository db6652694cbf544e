//! Creating users: the row stored for a new account.

use crate::api::auth::{
    argon2_verify_encoded, lemma_last_accepted_reaches, login_choice, verdicts_for,
};
use crate::db::users::{InsertUser, User as DbUser};
use crate::time::{is_known_zone, tz_known};
use crate::types::{role_number, shows_as_user, stored_role, Role};
use rand::TryRngCore;
use vstd::prelude::*;
use vstd::utf8::encode_utf8;

verus! {

/// What `argon2::hash_encoded` returns for a password and a salt with the
/// configuration `Config::rfc9106_low_mem()`, where it succeeds.
pub uninterp spec fn argon2_hash_encoded(pwd: Seq<u8>, salt: Seq<u8>) -> Seq<char>;

/// Whether `encoded` has the form of an Argon2 hash made with
/// `Config::rfc9106_low_mem()`: it begins with the variant, version and
/// parameters of that configuration, as `encode_string` writes them.
pub open spec fn low_mem_argon2id_form(encoded: Seq<char>) -> bool {
    &&& encoded.len() >= 31
    &&& encoded.subrange(0, 31) == "$argon2id$v=19$m=65536,t=3,p=1$"@
}

/// Hashes `password` with `salt` by `argon2::hash_encoded` (of the
/// `rust-argon2` crate) under `Config::rfc9106_low_mem()`; an error of the
/// crate becomes `None`.  The claims: with that configuration the crate
/// refuses only a salt shorter than 8 or longer than `u32::MAX` bytes and a
/// password longer than `u32::MAX` bytes (`Context::new`); the hash is
/// `argon2_hash_encoded` of the two; and `verify_encoded` accepts the
/// password against it, since it decodes the same parameters and salt and
/// computes the same hash; and the encoded string begins with
/// `$argon2id$v=19$m=65536,t=3,p=1$` (`encode_string` writes the variant,
/// version and parameters of the configuration first).
#[verifier::external_body]
pub(crate) fn hash_password(password: &[u8], salt: &[u8]) -> (r: Option<String>)
    ensures
        r.is_some() == (8 <= salt@.len() <= u32::MAX && password@.len() <= u32::MAX),
        r matches Some(h) ==> h@ == argon2_hash_encoded(password@, salt@),
        r matches Some(h) ==> argon2_verify_encoded(h@, password@) == Some(true),
        r matches Some(h) ==> low_mem_argon2id_form(h@),
{
    argon2::hash_encoded(password, salt, &argon2::Config::rfc9106_low_mem()).ok()
}

/// Thirty-two random bytes from the operating system's generator, read
/// through `rand::rngs::OsRng` and its fallible `try_fill_bytes`; `None`
/// where that generator fails.  Nothing is claimed of the bytes.
#[verifier::external_body]
pub(crate) fn random_salt() -> (salt: Option<Vec<u8>>)
    ensures
        salt matches Some(s) ==> s@.len() == 32,
{
    let mut salt = vec![0u8; 32];
    rand::rngs::OsRng.try_fill_bytes(&mut salt).ok()?;
    Some(salt)
}

/// A new account as a client sends it; `tz` is the name of a time zone.
#[derive(Debug)]
pub struct PostUser {
    pub username: String,
    pub password: String,
    pub name: String,
    pub tz: String,
    pub role: Role,
}

/// Whether `row` stores account `payload` with its password hashed with
/// `salt`.
pub open spec fn stores_account(row: InsertUser, payload: PostUser, salt: Seq<u8>) -> bool {
    &&& row.username == payload.username
    &&& row.password@ == argon2_hash_encoded(encode_utf8(payload.password@), salt)
    &&& row.name == payload.name
    &&& row.tz == payload.tz
    &&& row.role == role_number(payload.role) as i32
}

/// The row that stores account `payload`, its password hashed with `salt`;
/// `None` where its time zone is unknown or the hash fails: a salt shorter
/// than 8 or longer than `u32::MAX` bytes, or a password longer than
/// `u32::MAX` bytes.  A row stored this way can be shown.
pub fn insert_user_with_salt(payload: &PostUser, salt: &[u8]) -> (r: Option<InsertUser>)
    ensures
        r.is_some() == (tz_known(payload.tz@) && 8 <= salt@.len() <= u32::MAX && encode_utf8(
            payload.password@,
        ).len() <= u32::MAX),
        r matches Some(row) ==> tz_known(row.tz@) && stored_role(row.role) == Some(payload.role),
        r matches Some(row) ==> stores_account(row, *payload, salt@),
        r matches Some(row) ==> low_mem_argon2id_form(row.password@),
        r matches Some(row) ==> (!low_mem_argon2id_form(payload.password@) ==> row.password@
            != payload.password@),
        r matches Some(row) ==> argon2_verify_encoded(
            row.password@,
            encode_utf8(payload.password@),
        ) == Some(true),
{
    if !is_known_zone(payload.tz.as_str()) {
        return None;
    }
    let pwd = payload.password.as_str().as_bytes();
    match hash_password(pwd, salt) {
        None => None,
        Some(password) => Some(
            InsertUser {
                username: payload.username.clone(),
                password,
                name: payload.name.clone(),
                tz: payload.tz.clone(),
                role: payload.role.to_u8() as i32,
            },
        ),
    }
}

/// What creating account `payload` gives when the random source gave
/// `salt`: nothing without a salt; with a salt of 32 bytes, the row that
/// stores the account with its password hashed with that salt, which
/// exists exactly when the time zone is known and the password is no
/// longer than `u32::MAX` bytes.
pub open spec fn created_with(r: Option<InsertUser>, payload: PostUser, salt: Option<Seq<u8>>) -> bool {
    match salt {
        None => r.is_none(),
        Some(s) => {
            &&& s.len() == 32
            &&& r.is_some() == (tz_known(payload.tz@) && encode_utf8(payload.password@).len()
                <= u32::MAX)
            &&& r matches Some(row) ==> stores_account(row, payload, s)
        },
    }
}

/// The row that stores account `payload`, its password hashed with a fresh
/// random salt of 32 bytes; `None` where the random source fails, the time
/// zone is unknown or the password is longer than `u32::MAX` bytes.  A row
/// stored this way can be shown, and its hash accepts the password.
pub fn post_users(payload: &PostUser) -> (r: Option<InsertUser>)
    ensures
        exists|salt: Option<Seq<u8>>|
            #![trigger created_with(r, *payload, salt)]
            created_with(r, *payload, salt),
        !(tz_known(payload.tz@) && encode_utf8(payload.password@).len() <= u32::MAX) ==> (r is None),
        r matches Some(row) ==> tz_known(row.tz@) && stored_role(row.role) == Some(payload.role),
        r matches Some(row) ==> low_mem_argon2id_form(row.password@),
        r matches Some(row) ==> (!low_mem_argon2id_form(payload.password@) ==> row.password@
            != payload.password@),
        r matches Some(row) ==> argon2_verify_encoded(
            row.password@,
            encode_utf8(payload.password@),
        ) == Some(true),
{
    match random_salt() {
        None => {
            assert(created_with(None, *payload, None));
            None
        },
        Some(salt) => {
            let r = insert_user_with_salt(payload, salt.as_slice());
            assert(created_with(r, *payload, Some(salt@)));
            r
        },
    }
}

/// An account created with a password can log in with it: when its stored
/// row is the last of the users that share its username, a login with that
/// password selects it.
pub proof fn lemma_created_account_logs_in(
    row: InsertUser,
    payload: PostUser,
    stored: DbUser,
    others: Seq<DbUser>,
)
    requires
        argon2_verify_encoded(row.password@, encode_utf8(payload.password@)) == Some(true),
        stored.password == row.password,
    ensures
        login_choice(others.push(stored), encode_utf8(payload.password@)) == Some(stored),
{
    let users = others.push(stored);
    let pwd = encode_utf8(payload.password@);
    let verdicts = crate::api::auth::verdicts_for(users, pwd);
    assert(verdicts.last() == Some(true));
}

/// An account created with a password can log in with it wherever its
/// stored row stands among the users that share its username: a login with
/// that password selects a user whose hash accepts the password, this one
/// or one stored after it.
pub proof fn lemma_created_account_can_log_in(
    row: InsertUser,
    payload: PostUser,
    users: Seq<DbUser>,
    i: int,
)
    requires
        argon2_verify_encoded(row.password@, encode_utf8(payload.password@)) == Some(true),
        0 <= i < users.len(),
        users[i].password == row.password,
    ensures
        login_choice(users, encode_utf8(payload.password@)) is Some,
        login_choice(users, encode_utf8(payload.password@)) matches Some(u) ==> {
            &&& argon2_verify_encoded(u.password@, encode_utf8(payload.password@)) == Some(true)
            &&& exists|j: int| i <= j < users.len() && u == users[j]
        },
{
    let pwd = encode_utf8(payload.password@);
    let verdicts = verdicts_for(users, pwd);
    assert(verdicts[i] == Some(true));
    lemma_last_accepted_reaches(verdicts, i);
}

/// Storing the row of a created account keeps a table of showable users
/// showable.
pub proof fn lemma_table_stays_showable(table: Seq<DbUser>, row: InsertUser, stored: DbUser)
    requires
        forall|k: int| 0 <= k < table.len() ==> shows_as_user(#[trigger] table[k]),
        tz_known(row.tz@),
        stored_role(row.role) is Some,
        stored.tz == row.tz,
        stored.role == row.role,
    ensures
        forall|k: int|
            0 <= k < table.push(stored).len() ==> shows_as_user(#[trigger] table.push(stored)[k]),
{
    assert forall|k: int| 0 <= k < table.push(stored).len() implies shows_as_user(
        #[trigger] table.push(stored)[k],
    ) by {
        if k < table.len() {
            assert(table.push(stored)[k] == table[k]);
        }
    }
}

/// Once the random source gives a salt, an account whose time zone is
/// known and whose password fits is created whatever its role: the row
/// stores the requested role, and two accounts that differ only in their
/// role get rows that differ only in their role number.
pub proof fn lemma_every_role_is_created(
    r1: Option<InsertUser>,
    r2: Option<InsertUser>,
    p1: PostUser,
    p2: PostUser,
    salt: Seq<u8>,
)
    requires
        created_with(r1, p1, Some(salt)),
        created_with(r2, p2, Some(salt)),
        p1.username == p2.username,
        p1.password == p2.password,
        p1.name == p2.name,
        p1.tz == p2.tz,
        tz_known(p1.tz@),
        encode_utf8(p1.password@).len() <= u32::MAX,
    ensures
        r1 is Some,
        r2 is Some,
        stored_role(r1->0.role) == Some(p1.role),
        stored_role(r2->0.role) == Some(p2.role),
        r1->0.username == r2->0.username,
        r1->0.password@ == r2->0.password@,
        r1->0.name == r2->0.name,
        r1->0.tz == r2->0.tz,
{
}

} // verus!
