use crate::v1::api::Client;
use vstd::prelude::*;

pub mod project_users;

verus! {

/// The routes that manage an organisation, reached through a client.
#[derive(Debug, Clone, Copy)]
pub struct Administration<'a> {
    pub client: &'a Client,
}

impl Client {
    /// The routes that manage the organisation behind this client.
    pub fn administration(&self) -> (administration: Administration<'_>)
        ensures
            administration.client == self,
    {
        Administration { client: self }
    }
}

} // verus!
