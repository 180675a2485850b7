//! A user account.
use vstd::prelude::*;

verus! {

pub struct Model {
    pub id: i32,
    pub name: String,
    pub email: String,
    pub password_hash: String,
    pub user_type: String,
}

} // verus!
