//! The stored record of an agent.

use vstd::prelude::*;

use crate::ident::Id;

verus! {

/// One row of the agent table: who the agent is and when it was last seen.
#[derive(Debug)]
pub struct Model {
    pub id: Id,
    pub uid: String,
    pub name: String,
    pub os: Option<String>,
    pub hostname: Option<String>,
    pub ip: String,
    pub system: Option<String>,
    pub arch: Option<String>,
    pub last_login: i64,
    pub created_at: i64,
    pub updated_at: i64,
}

} // verus!
