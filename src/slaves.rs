//! How host agents are presented to users.
use crate::entities::slave;
use vstd::prelude::*;

verus! {

/// What a non-administrator sees of a host agent: no address, no token.
pub struct BirefSlave {
    pub id: i32,
    pub name: String,
    pub description: String,
}

pub open spec fn biref_of(value: slave::Model) -> BirefSlave {
    BirefSlave { id: value.id, name: value.name, description: value.description }
}

impl From<slave::Model> for BirefSlave {
    fn from(value: slave::Model) -> (r: Self) {
        BirefSlave { id: value.id, name: value.name, description: value.description }
    }
}

impl vstd::std_specs::convert::FromSpecImpl<slave::Model> for BirefSlave {
    open spec fn obeys_from_spec() -> bool {
        true
    }

    open spec fn from_spec(v: slave::Model) -> BirefSlave {
        biref_of(v)
    }
}

/// A host agent as shown: whole to administrators, brief to others.
pub enum SlaveResponse {
    Detailed(slave::Model),
    Biref(BirefSlave),
}

impl From<slave::Model> for SlaveResponse {
    fn from(value: slave::Model) -> (r: Self) {
        SlaveResponse::Detailed(value)
    }
}

impl vstd::std_specs::convert::FromSpecImpl<slave::Model> for SlaveResponse {
    open spec fn obeys_from_spec() -> bool {
        true
    }

    open spec fn from_spec(v: slave::Model) -> SlaveResponse {
        SlaveResponse::Detailed(v)
    }
}

impl SlaveResponse {
    /// The brief form of this response.
    pub fn into_biref(self) -> (r: Self)
        ensures
            match self {
                SlaveResponse::Detailed(v) => r == SlaveResponse::Biref(biref_of(v)),
                SlaveResponse::Biref(b) => r == SlaveResponse::Biref(b),
            },
    {
        match self {
            SlaveResponse::Detailed(v) => SlaveResponse::Biref(BirefSlave::from(v)),
            SlaveResponse::Biref(v) => SlaveResponse::Biref(v),
        }
    }
}

/// A host agent as `is_admin` may see it.
pub fn present_slave(value: slave::Model, is_admin: bool) -> (r: SlaveResponse)
    ensures
        is_admin ==> r == SlaveResponse::Detailed(value),
        !is_admin ==> r == SlaveResponse::Biref(biref_of(value)),
{
    let response = SlaveResponse::from(value);
    if is_admin {
        response
    } else {
        response.into_biref()
    }
}

/// A request to register a host agent.
pub struct CreateSlaveRequest {
    pub name: String,
    pub description: String,
    pub slave_url: String,
    pub slave_token: String,
}

/// A listing filter: only these ids, where given.
pub struct SlavesQuery {
    pub ids: Option<Vec<u64>>,
}

} // verus!
