//! A user of the catalogue.

use vstd::prelude::*;

verus! {

/// A row of the users, with the fields that the card logic reads.
#[derive(Debug, Clone)]
pub struct Model {
    pub user_id: i64,
    pub username: String,
    pub password_hash: String,
}

} // verus!
