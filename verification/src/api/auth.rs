//! Logging in: which stored user a username and password select.

use crate::db::users::User as DbUser;
use vstd::prelude::*;
use vstd::string::StringSliceAdditionalSpecFns;

verus! {

/// What `argon2::verify_encoded` answers for an encoded hash and a
/// password: `Some(matches)`, or `None` where it returns an error.
pub uninterp spec fn argon2_verify_encoded(encoded: Seq<char>, pwd: Seq<u8>) -> Option<bool>;

/// Checks `password` against the encoded Argon2 hash `encoded` with
/// `argon2::verify_encoded` (of the `rust-argon2` crate), an error of the
/// crate becoming `None`.  The claim is only that the answer is
/// `argon2_verify_encoded` of the two.
#[verifier::external_body]
pub(crate) fn verify_password(encoded: &str, password: &[u8]) -> (r: Option<bool>)
    ensures
        r == argon2_verify_encoded(encoded@, password@),
{
    argon2::verify_encoded(encoded, password).ok()
}

/// The index of the last `Some(true)` of `verdicts`.
pub open spec fn last_accepted(verdicts: Seq<Option<bool>>) -> Option<int>
    decreases verdicts.len(),
{
    if verdicts.len() == 0 {
        None
    } else if verdicts.last() == Some(true) {
        Some(verdicts.len() - 1)
    } else {
        last_accepted(verdicts.drop_last())
    }
}

/// The answers of the password check for each stored user.
pub open spec fn verdicts_for(users: Seq<DbUser>, pwd: Seq<u8>) -> Seq<Option<bool>> {
    users.map_values(|u: DbUser| argon2_verify_encoded(u.password@, pwd))
}

/// The user whom a login selects among the stored users that share its
/// username: the last one whose hash accepts the password.
pub open spec fn login_choice(users: Seq<DbUser>, pwd: Seq<u8>) -> Option<DbUser> {
    match last_accepted(verdicts_for(users, pwd)) {
        Some(i) => Some(users[i]),
        None => None,
    }
}

/// A last accepted index lies in the sequence and is accepted.
pub proof fn lemma_last_accepted_bounds(verdicts: Seq<Option<bool>>)
    ensures
        last_accepted(verdicts) matches Some(i) ==> 0 <= i < verdicts.len() && verdicts[i] == Some(
            true,
        ),
    decreases verdicts.len(),
{
    if verdicts.len() > 0 && verdicts.last() != Some(true) {
        lemma_last_accepted_bounds(verdicts.drop_last());
    }
}

/// Where some check accepted, a last accepted index exists, at or after it.
pub proof fn lemma_last_accepted_reaches(verdicts: Seq<Option<bool>>, i: int)
    requires
        0 <= i < verdicts.len(),
        verdicts[i] == Some(true),
    ensures
        last_accepted(verdicts) matches Some(j) && i <= j < verdicts.len() && verdicts[j] == Some(
            true,
        ),
    decreases verdicts.len(),
{
    if verdicts.last() != Some(true) {
        assert(verdicts.drop_last()[i] == verdicts[i]);
        lemma_last_accepted_reaches(verdicts.drop_last(), i);
    }
}

/// The index of the last password check that accepted, where one did.
pub fn last_accepted_index(verdicts: &Vec<Option<bool>>) -> (r: Option<usize>)
    ensures
        r matches Some(i) ==> last_accepted(verdicts@) == Some(i as int),
        r is None ==> last_accepted(verdicts@) is None,
{
    let mut found: Option<usize> = None;
    let mut i: usize = 0;
    while i < verdicts.len()
        invariant
            i <= verdicts.len(),
            found matches Some(j) ==> last_accepted(verdicts@.take(i as int)) == Some(j as int),
            found is None ==> last_accepted(verdicts@.take(i as int)) is None,
        decreases verdicts.len() - i,
    {
        assert(verdicts@.take(i + 1).drop_last() =~= verdicts@.take(i as int));
        if verdicts[i] == Some(true) {
            found = Some(i);
        }
        i = i + 1;
    }
    assert(verdicts@.take(verdicts.len() as int) =~= verdicts@);
    found
}

/// The stored user whom a login with `password` selects among `users`, the
/// stored users with the given username: the last one whose password hash
/// accepts the password, or `None` (the login is refused).
pub fn post_login(users: Vec<DbUser>, password: &str) -> (r: Option<DbUser>)
    ensures
        r == login_choice(users@, password.spec_bytes()),
{
    let pwd = password.as_bytes();
    let mut verdicts: Vec<Option<bool>> = Vec::new();
    let mut i: usize = 0;
    while i < users.len()
        invariant
            i <= users.len(),
            pwd@ == password.spec_bytes(),
            verdicts@ =~= verdicts_for(users@.take(i as int), pwd@),
        decreases users.len() - i,
    {
        let v = verify_password(users[i].password.as_str(), pwd);
        verdicts.push(v);
        i = i + 1;
        assert(verdicts@ =~= verdicts_for(users@.take(i as int), pwd@));
    }
    assert(users@.take(users.len() as int) =~= users@);
    proof {
        lemma_last_accepted_bounds(verdicts@);
    }
    match last_accepted_index(&verdicts) {
        Some(idx) => {
            let mut users = users;
            Some(users.remove(idx))
        },
        None => None,
    }
}

} // verus!
