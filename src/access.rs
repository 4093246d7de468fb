use vstd::prelude::*;
use vstd::string::*;

use crate::model::Role;
use crate::text::{owned, str_equal};

verus! {

/// What `char::is_alphabetic` says of `c` (Unicode's Alphabetic property).
pub uninterp spec fn unicode_alphabetic(c: char) -> bool;

/// What `char::is_alphanumeric` says of `c` (Unicode's Alphabetic property or a
/// numeric general category).
pub uninterp spec fn unicode_alphanumeric(c: char) -> bool;

/// Relies on `char::is_alphabetic`.
#[verifier::external_body]
fn is_alphabetic(c: char) -> (r: bool)
    ensures
        r == unicode_alphabetic(c),
{
    c.is_alphabetic()
}

/// Relies on `char::is_alphanumeric`.
#[verifier::external_body]
fn is_alphanumeric(c: char) -> (r: bool)
    ensures
        r == unicode_alphanumeric(c),
{
    c.is_alphanumeric()
}

/// Whether `s` is acceptable as a table or column name: 1 to 64 bytes long,
/// starting with a letter or an underscore, made of letters, digits and
/// underscores only.
pub open spec fn valid_table_name(s: &str) -> bool {
    &&& s@.len() > 0
    &&& s.len() <= 64
    &&& (unicode_alphabetic(s@[0]) || s@[0] == '_')
    &&& forall|i: int| 0 <= i < s@.len() ==> unicode_alphanumeric(#[trigger] s@[i]) || s@[i] == '_'
}

/// Whether `table` is a safe table or column name.
pub fn is_valid_table_name(table: &str) -> (r: bool)
    ensures
        r == valid_table_name(table),
{
    let n = table.unicode_len();
    if n == 0 || table.len() > 64 {
        return false;
    }
    let first = table.get_char(0);
    if !is_alphabetic(first) && first != '_' {
        return false;
    }
    let mut i: usize = 0;
    while i < n
        invariant
            n == table@.len(),
            i <= n,
            forall|j: int| 0 <= j < i ==> unicode_alphanumeric(#[trigger] table@[j]) || table@[j] == '_',
        decreases n - i,
    {
        let c = table.get_char(i);
        if !is_alphanumeric(c) && c != '_' {
            return false;
        }
        i = i + 1;
    }
    true
}

/// The system tables that only service accounts may reach directly.
pub open spec fn protected_table(s: Seq<char>) -> bool {
    s == seq!['u', 's', 'e', 'r', 's'] || s == seq!['s', 'e', 's', 's', 'i', 'o', 'n', 's'] || s
        == seq!['m', 'i', 'g', 'r', 'a', 't', 'i', 'o', 'n', 's']
}

/// Whether `table` is one of the protected system tables.
pub fn is_protected_table(table: &str) -> (r: bool)
    ensures
        r == protected_table(table@),
{
    proof {
        reveal_strlit("users");
        reveal_strlit("sessions");
        reveal_strlit("migrations");
        assert("users"@ =~= seq!['u', 's', 'e', 'r', 's']);
        assert("sessions"@ =~= seq!['s', 'e', 's', 's', 'i', 'o', 'n', 's']);
        assert("migrations"@ =~= seq!['m', 'i', 'g', 'r', 'a', 't', 'i', 'o', 'n', 's']);
    }
    str_equal(table, "users") || str_equal(table, "sessions") || str_equal(table, "migrations")
}

/// The decision on a direct table request.
#[derive(Debug, Clone, Copy, PartialEq, Eq, Structural)]
pub enum TableAccess {
    /// The request may proceed.
    Allowed,
    /// The table name is not acceptable.
    InvalidName,
    /// The table is protected and the requester is not a service account.
    Forbidden,
}

/// Decides a direct request for `table` by an account with role `role`: the
/// name must be valid, and protected tables need the service role.
pub fn check_table_access(table: &str, role: Role) -> (r: TableAccess)
    ensures
        !valid_table_name(table) ==> r == TableAccess::InvalidName,
        valid_table_name(table) && protected_table(table@) && role != Role::Service ==> r
            == TableAccess::Forbidden,
        valid_table_name(table) && (!protected_table(table@) || role == Role::Service) ==> r
            == TableAccess::Allowed,
{
    if !is_valid_table_name(table) {
        TableAccess::InvalidName
    } else if is_protected_table(table) && role != Role::Service {
        TableAccess::Forbidden
    } else {
        TableAccess::Allowed
    }
}

/// The scheme word that opens an `Authorization` header carrying a token.
pub open spec fn bearer_prefix() -> Seq<char> {
    seq!['B', 'e', 'a', 'r', 'e', 'r', ' ']
}

/// The token of an `Authorization` header value of the form `Bearer <token>`.
pub fn bearer_token(header: &str) -> (r: Option<String>)
    ensures
        header@.len() >= 7 && header@.subrange(0, 7) == bearer_prefix() ==> (r matches Some(t)
            && t@ == header@.subrange(7, header@.len() as int)),
        !(header@.len() >= 7 && header@.subrange(0, 7) == bearer_prefix()) ==> r is None,
{
    let n = header.unicode_len();
    if n < 7 {
        return None;
    }
    let head = header.substring_char(0, 7);
    proof {
        reveal_strlit("Bearer ");
        assert("Bearer "@ =~= bearer_prefix());
    }
    if !str_equal(head, "Bearer ") {
        return None;
    }
    Some(owned(header.substring_char(7, n)))
}

} // verus!
