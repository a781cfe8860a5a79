//! Decisions of the request layer: who may do what, and the admin settings.

use vstd::prelude::*;

use crate::auth::User;
use crate::config::{parse_unsigned, parse_unsigned_spec};
use crate::errors::GatewayError;

verus! {

/// Default and bounds of the `max_users` setting.
pub const DEFAULT_MAX_USERS: u32 = 50;

pub const MIN_MAX_USERS: u32 = 1;

pub const MAX_MAX_USERS: u32 = 1000;

/// Admin-only operations are refused to anyone else.
pub fn require_admin(user: &User) -> (r: Result<(), GatewayError>)
    ensures
        r == (if user.is_admin {
            Ok::<(), GatewayError>(())
        } else {
            Err::<(), GatewayError>(GatewayError::Forbidden)
        }),
{
    if user.is_admin {
        Ok(())
    } else {
        Err(GatewayError::Forbidden)
    }
}

/// The outcome of a request by `user` to delete the account `target`.
pub open spec fn delete_check_spec(is_admin: bool, username: Seq<char>, target: Seq<char>) -> Result<(), GatewayError> {
    if !is_admin {
        Err(GatewayError::Forbidden)
    } else if username == target {
        Err(GatewayError::Internal)
    } else {
        Ok(())
    }
}

/// Checked before an account is deleted: the caller must be an admin, and
/// may not delete their own account.
pub fn check_delete_user(user: &User, target: &str) -> (r: Result<(), GatewayError>)
    ensures
        r == delete_check_spec(user.is_admin, user.username@, target@),
{
    require_admin(user)?;
    let t = String::from_str(target);
    if user.username == t {
        Err(GatewayError::Internal)
    } else {
        Ok(())
    }
}

/// An admin deleting their own account is refused, and anyone who is not
/// an admin is refused with `Forbidden`, whatever the target.
pub proof fn lemma_admin_checks(is_admin: bool, username: Seq<char>, target: Seq<char>)
    ensures
        is_admin && username == target ==> delete_check_spec(is_admin, username, target) is Err,
        !is_admin ==> delete_check_spec(is_admin, username, target) == Err::<(), GatewayError>(
            GatewayError::Forbidden,
        ),
{
}

/// A new `max_users` value is accepted within `1 ..= 1000`.
pub fn check_max_users(value: u32) -> (r: Result<u32, GatewayError>)
    ensures
        r == (if MIN_MAX_USERS <= value <= MAX_MAX_USERS {
            Ok::<u32, GatewayError>(value)
        } else {
            Err::<u32, GatewayError>(GatewayError::Internal)
        }),
{
    if value < MIN_MAX_USERS || value > MAX_MAX_USERS {
        Err(GatewayError::Internal)
    } else {
        Ok(value)
    }
}

/// The stored `max_users` setting read as a number, or 50 when it does not
/// read as one.
pub fn max_users_setting(stored: &str) -> (r: u32)
    ensures
        r == match parse_unsigned_spec(stored@, 4294967295) {
            Some(v) => v as u32,
            None => DEFAULT_MAX_USERS,
        },
{
    match parse_unsigned(stored, 4294967295) {
        Some(v) => v as u32,
        None => DEFAULT_MAX_USERS,
    }
}

/// Whether `name` is one of `list`.
pub fn list_contains(list: &Vec<String>, name: &str) -> (r: bool)
    ensures
        r == list@.map_values(|a: String| a@).contains(name@),
{
    let ghost names = list@.map_values(|a: String| a@);
    let u = String::from_str(name);
    let mut i: usize = 0;
    while i < list.len()
        invariant
            u@ == name@,
            names == list@.map_values(|a: String| a@),
            i <= list@.len(),
            forall|j: int| 0 <= j < i ==> list@[j]@ != name@,
        decreases list@.len() - i,
    {
        if list[i] == u {
            assert(names[i as int] == name@);
            return true;
        }
        i = i + 1;
    }
    assert forall|j: int| 0 <= j < names.len() implies #[trigger] names[j] != name@ by {
        assert(names[j] == list@[j]@);
    }
    false
}

/// The identity used when token checks are switched off: the configured
/// user, with a placeholder address, admin if listed.
pub fn dev_identity(dev_user: &str, admin_users: &Vec<String>) -> (r: User)
    ensures
        r.username@ == dev_user@,
        r.email@ == dev_user@ + "@dev"@,
        r.is_admin == admin_users@.map_values(|a: String| a@).contains(dev_user@),
{
    let is_admin = list_contains(admin_users, dev_user);
    let u = String::from_str(dev_user);
    let mut email = String::from_str(dev_user);
    email.append("@dev");
    User { username: u, email, is_admin }
}

} // verus!
