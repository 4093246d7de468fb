use vstd::prelude::*;
use vstd::string::*;

use crate::clock::{now_timestamp, CLOCK_LIMIT};
use crate::text::str_equal;

verus! {

/// The privilege class of an account.
#[derive(Clone, Copy, Debug, PartialEq, Eq, Structural)]
pub enum Role {
    User,
    Service,
}

/// The lower-case name under which a role is stored and carried in tokens.
pub open spec fn role_name(r: Role) -> Seq<char> {
    match r {
        Role::User => seq!['u', 's', 'e', 'r'],
        Role::Service => seq!['s', 'e', 'r', 'v', 'i', 'c', 'e'],
    }
}

/// The role whose name is `s`, if any.
pub open spec fn role_named(s: Seq<char>) -> Option<Role> {
    if s == role_name(Role::User) {
        Some(Role::User)
    } else if s == role_name(Role::Service) {
        Some(Role::Service)
    } else {
        None
    }
}

/// Each role is found again from its name.
pub proof fn lemma_role_name_round_trip(r: Role)
    ensures
        role_named(role_name(r)) == Some(r),
{
    if r == Role::Service {
        assert(role_name(Role::Service) != role_name(Role::User)) by {
            assert(role_name(Role::Service).len() != role_name(Role::User).len());
        }
    }
}

impl Role {
    /// The stored name of the role.
    pub fn as_str(&self) -> (r: &'static str)
        ensures
            r@ == role_name(*self),
    {
        match self {
            Role::User => {
                proof {
                    reveal_strlit("user");
                }
                "user"
            },
            Role::Service => {
                proof {
                    reveal_strlit("service");
                }
                "service"
            },
        }
    }

    /// The role with the given stored name.
    pub fn from_name(s: &str) -> (r: Option<Role>)
        ensures
            r == role_named(s@),
    {
        if str_equal(s, Role::User.as_str()) {
            Some(Role::User)
        } else if str_equal(s, Role::Service.as_str()) {
            Some(Role::Service)
        } else {
            None
        }
    }
}

/// An account. `id` is assigned by the store when the record is inserted;
/// timestamps are seconds since the Unix epoch.
#[derive(Debug, Clone)]
pub struct User {
    pub id: Option<i64>,
    pub email: String,
    pub password_hash: String,
    pub role: Role,
    pub created_at: i64,
    pub updated_at: i64,
}

impl User {
    /// A new, not yet stored account with the default role.
    pub fn new(email: String, password_hash: String) -> (r: User)
        ensures
            r.id is None,
            r.email@ == email@,
            r.password_hash@ == password_hash@,
            r.role == Role::User,
            r.created_at == r.updated_at,
    {
        User::new_with_role(email, password_hash, Role::User)
    }

    /// A new, not yet stored account with the given role.
    pub fn new_with_role(email: String, password_hash: String, role: Role) -> (r: User)
        ensures
            r.id is None,
            r.email@ == email@,
            r.password_hash@ == password_hash@,
            r.role == role,
            r.created_at == r.updated_at,
            0 <= r.created_at < CLOCK_LIMIT,
    {
        let now = now_timestamp();
        User { id: None, email, password_hash, role, created_at: now, updated_at: now }
    }

    /// Whether the account holds exactly `role`.
    pub fn has_role(&self, role: Role) -> (r: bool)
        ensures
            r == (self.role == role),
    {
        self.role == role
    }

    /// Whether the account is an ordinary user.
    pub fn is_user(&self) -> (r: bool)
        ensures
            r == (self.role == Role::User),
    {
        self.has_role(Role::User)
    }

    /// Whether the account is a service account.
    pub fn is_service(&self) -> (r: bool)
        ensures
            r == (self.role == Role::Service),
    {
        self.has_role(Role::Service)
    }
}

/// The audit record of an issued token.
#[derive(Debug, Clone)]
pub struct Session {
    pub id: Option<i64>,
    pub user_id: i64,
    pub token: String,
    pub expires_at: i64,
    pub created_at: i64,
}

impl Session {
    /// A new, not yet stored session record, created now.
    pub fn new(user_id: i64, token: String, expires_at: i64) -> (r: Session)
        ensures
            r.id is None,
            r.user_id == user_id,
            r.token@ == token@,
            r.expires_at == expires_at,
            0 <= r.created_at < CLOCK_LIMIT,
    {
        Session { id: None, user_id, token, expires_at, created_at: now_timestamp() }
    }

    /// Whether the session has expired at time `now`.
    pub fn is_expired_at(&self, now: i64) -> (r: bool)
        ensures
            r == (now > self.expires_at),
    {
        now > self.expires_at
    }

    /// Whether the session has expired by the clock's current time.
    pub fn is_expired(&self) -> (r: bool)
        ensures
            self.expires_at < 0 ==> r,
            self.expires_at >= CLOCK_LIMIT ==> !r,
    {
        let now = now_timestamp();
        self.is_expired_at(now)
    }
}

} // verus!
