//! Service-wide feed creation and administration permissions.

use vstd::prelude::*;

pub mod get_global_permissions;
pub mod set_global_permissions;

verus! {

/// The operations of this group, bound to a configured client.
pub struct Client(pub crate::client::Client);

impl Client {
    /// Get all service-wide feed creation and administration permissions.
    ///
    /// Arguments:
    /// * `organization`: The name of the Azure DevOps organization.
    pub fn get_global_permissions(&self, organization: String) -> (r:
        get_global_permissions::Builder)
        ensures
            r.client.endpoint == self.0.endpoint,
            r.client.scopes@ == self.0.scopes@,
            r.client.retry == self.0.retry,
            r.organization == organization,
            r.include_ids is None,
    {
        get_global_permissions::Builder {
            client: self.0.clone(),
            organization,
            include_ids: None,
        }
    }

    /// Set service-wide permissions that govern feed creation and administration.
    ///
    /// Arguments:
    /// * `organization`: The name of the Azure DevOps organization.
    /// * `body`: New permissions for the organization.
    pub fn set_global_permissions(&self, organization: String, body: Vec<u8>) -> (r:
        set_global_permissions::Builder)
        ensures
            r.client.endpoint == self.0.endpoint,
            r.client.scopes@ == self.0.scopes@,
            r.client.retry == self.0.retry,
            r.organization == organization,
            r.body == body,
    {
        set_global_permissions::Builder {
            client: self.0.clone(),
            organization,
            body,
        }
    }
}

} // verus!
