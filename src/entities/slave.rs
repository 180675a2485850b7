//! A registered host agent.
use vstd::prelude::*;

verus! {

pub struct Model {
    pub id: i32,
    pub name: String,
    pub description: String,
    pub slave_token: String,
    pub slave_url: String,
}

} // verus!
