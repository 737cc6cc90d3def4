//! Records of users, as far as a mention reads them.

use vstd::prelude::*;
use crate::id::UserId;

verus! {

/// The user that the client is signed in as.
#[derive(Clone, Copy, Debug, PartialEq, Eq)]
pub struct CurrentUser {
    /// The user's identifier.
    pub id: UserId,
}

/// A user.
#[derive(Clone, Copy, Debug, PartialEq, Eq)]
pub struct User {
    /// The user's identifier.
    pub id: UserId,
}

} // verus!
