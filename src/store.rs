//! The user record kept by the persistence service.

use vstd::prelude::*;

verus! {

/// One known user: when first and last seen (milliseconds since the epoch)
/// and whether an admin at last sight (`0` or `1`).
pub struct UserRecord {
    pub username: String,
    pub first_seen: i64,
    pub last_seen: i64,
    pub is_admin: i64,
}

impl UserRecord {
    /// Whether the record marks an admin.
    pub fn admin(&self) -> (r: bool)
        ensures
            r == (self.is_admin != 0),
    {
        self.is_admin != 0
    }
}

} // verus!
