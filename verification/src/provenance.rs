//! Package provenance sessions.

use vstd::prelude::*;

pub mod create_session;

verus! {

/// The operations of this group, bound to a configured client.
pub struct Client(pub crate::client::Client);

impl Client {
    /// Creates a session, a wrapper around a feed that can store additional metadata on the packages published to it.
    ///
    /// Arguments:
    /// * `organization`: The name of the Azure DevOps organization.
    /// * `body`: The feed and metadata for the session
    /// * `protocol`: The protocol that the session will target
    /// * `project`: Project ID or project name
    pub fn create_session(&self, organization: String, body: Vec<u8>, protocol: String, project: String) -> (r:
        create_session::Builder)
        ensures
            r.client.endpoint == self.0.endpoint,
            r.client.scopes@ == self.0.scopes@,
            r.client.retry == self.0.retry,
            r.organization == organization,
            r.body == body,
            r.protocol == protocol,
            r.project == project,
    {
        create_session::Builder {
            client: self.0.clone(),
            organization,
            body,
            protocol,
            project,
        }
    }
}

} // verus!
