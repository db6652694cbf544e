//! Types handed out by the API.

use crate::db::timeframes::Timeframe as DbTimeframe;
use crate::db::users::User as DbUser;
use crate::time::{is_known_zone, tz_known, TimeOfDay};
use vstd::prelude::*;

verus! {

/// The role of a user account; stored in the database as its number.
#[derive(Clone, Copy, Debug, PartialEq, Eq, Structural)]
pub enum Role {
    Admin,
    User,
}

/// The number under which a role is stored.
pub open spec fn role_number(role: Role) -> u8 {
    match role {
        Role::Admin => 0,
        Role::User => 1,
    }
}

/// The role stored under a number: 0 is `Admin`, 1 is `User`.
pub open spec fn role_of_number(value: u8) -> Option<Role> {
    if value == 0 {
        Some(Role::Admin)
    } else if value == 1 {
        Some(Role::User)
    } else {
        None
    }
}

/// The error given for a number that names no role.
#[derive(Clone, Copy, Debug, PartialEq, Eq, Structural)]
pub struct InvalidRole {
    pub value: u8,
}

impl InvalidRole {
    /// The message of the error.
    pub fn message(&self) -> (s: &'static str)
        ensures
            s@ == "Invalid value"@,
    {
        "Invalid value"
    }
}

impl Role {
    /// The number under which the role is stored.
    pub fn to_u8(self) -> (n: u8)
        ensures
            n == role_number(self),
    {
        match self {
            Role::Admin => 0,
            Role::User => 1,
        }
    }

    /// The role stored under `value`: 0 is `Admin`, 1 is `User`, any other
    /// number is an error.
    pub fn from_u8(value: u8) -> (r: Result<Role, InvalidRole>)
        ensures
            r == (match role_of_number(value) {
                Some(role) => Ok::<Role, InvalidRole>(role),
                None => Err::<Role, InvalidRole>(InvalidRole { value }),
            }),
    {
        match value {
            0 => Ok(Role::Admin),
            1 => Ok(Role::User),
            _ => Err(InvalidRole { value }),
        }
    }
}

/// Every role is stored under a number that decodes to it again.
pub proof fn lemma_role_number_round_trip(role: Role)
    ensures
        role_of_number(role_number(role)) == Some(role),
{
}

/// A number that decodes to a role is the number under which that role is
/// stored.
pub proof fn lemma_role_of_number_is_stored_number(value: u8)
    ensures
        role_of_number(value) matches Some(role) ==> role_number(role) == value,
{
}

/// A user as the API shows it: no password, the time zone by its name
/// and the role decoded.
#[derive(Debug)]
pub struct User {
    pub id: i32,
    pub username: String,
    pub name: String,
    pub tz: String,
    pub role: Role,
}

/// The role that a stored role number names: its low byte decoded as by
/// `Role::from_u8`.
pub open spec fn stored_role(role: i32) -> Option<Role> {
    role_of_number(role as u8)
}

/// Whether a user row can be shown: its time zone is known and its role
/// number names a role.
pub open spec fn shows_as_user(row: DbUser) -> bool {
    tz_known(row.tz@) && stored_role(row.role) is Some
}

/// The low byte of a stored number, as `as u8` takes it.
pub fn low_byte(value: i32) -> (b: u8)
    ensures
        b == value as u8,
{
    value as u8
}

/// Whether `u` shows user row `row`.
pub open spec fn shows(u: User, row: DbUser) -> bool {
    &&& u.id == row.id
    &&& u.username == row.username
    &&& u.name == row.name
    &&& u.tz == row.tz
    &&& Some(u.role) == stored_role(row.role)
}

impl User {
    /// The user shown for a row whose time zone is known and whose role
    /// number names a role.
    pub fn from_db(user: DbUser) -> (u: User)
        requires
            shows_as_user(user),
        ensures
            shows(u, user),
    {
        let role = match Role::from_u8(low_byte(user.role)) {
            Ok(r) => r,
            Err(_) => {
                assert(false);
                Role::User
            },
        };
        User { id: user.id, username: user.username, name: user.name, tz: user.tz, role }
    }

    /// The user shown for a row, or `None` where the row's time zone is
    /// unknown or its role number names no role.
    pub fn try_from_db(user: DbUser) -> (u: Option<User>)
        ensures
            u is None <==> !shows_as_user(user),
            u matches Some(v) ==> shows(v, user),
    {
        if is_known_zone(user.tz.as_str()) && low_byte(user.role) < 2 {
            Some(User::from_db(user))
        } else {
            None
        }
    }
}

/// The users shown for user rows, in their order; `None` where some row
/// cannot be shown.
pub fn users_from_db(rows: Vec<DbUser>) -> (r: Option<Vec<User>>)
    ensures
        (r is Some) <==> forall|i: int| 0 <= i < rows@.len() ==> shows_as_user(#[trigger] rows@[i]),
        r matches Some(v) ==> v@.len() == rows@.len() && forall|i: int|
            0 <= i < rows@.len() ==> shows(#[trigger] v@[i], rows@[i]),
{
    let ghost all = rows@;
    let mut rest = rows;
    let mut out: Vec<User> = Vec::new();
    while rest.len() > 0
        invariant
            all == rows@,
            out@.len() + rest@.len() == all.len(),
            rest@ == all.skip(out@.len() as int),
            forall|i: int| 0 <= i < out@.len() ==> shows(#[trigger] out@[i], all[i]),
            forall|i: int| 0 <= i < out@.len() ==> shows_as_user(#[trigger] all[i]),
        decreases rest@.len(),
    {
        let row = rest.remove(0);
        let ghost k = out@.len() as int;
        assert(row == all[k]);
        match User::try_from_db(row) {
            None => {
                assert(!shows_as_user(all[k]));
                return None;
            },
            Some(u) => out.push(u),
        }
        assert(rest@ =~= all.skip(out@.len() as int));
    }
    Some(out)
}

/// A timeframe as the API shows it.
#[derive(Clone, Copy, Debug, PartialEq, Eq, Structural)]
pub struct Timeframe {
    pub id: i32,
    pub user_id: i32,
    pub day: i32,
    pub start: TimeOfDay,
    pub duration: i32,
}

impl From<DbTimeframe> for Timeframe {
    fn from(timeframe: DbTimeframe) -> (t: Timeframe) {
        Timeframe {
            id: timeframe.id,
            user_id: timeframe.user_id,
            day: timeframe.day,
            start: timeframe.start,
            duration: timeframe.duration,
        }
    }
}

impl vstd::std_specs::convert::FromSpecImpl<DbTimeframe> for Timeframe {
    open spec fn obeys_from_spec() -> bool {
        true
    }

    open spec fn from_spec(timeframe: DbTimeframe) -> Timeframe {
        Timeframe {
            id: timeframe.id,
            user_id: timeframe.user_id,
            day: timeframe.day,
            start: timeframe.start,
            duration: timeframe.duration,
        }
    }
}

} // verus!
