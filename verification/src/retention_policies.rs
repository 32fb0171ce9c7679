//! Feed retention policies.

use vstd::prelude::*;

pub mod get_retention_policy;
pub mod set_retention_policy;
pub mod delete_retention_policy;

verus! {

/// The operations of this group, bound to a configured client.
pub struct Client(pub crate::client::Client);

impl Client {
    /// Get the retention policy for a feed.
    ///
    /// The project parameter must be supplied if the feed was created in a project.
    /// If the feed is not associated with any project, omit the project parameter from the request.
    ///
    /// Arguments:
    /// * `organization`: The name of the Azure DevOps organization.
    /// * `feed_id`: Name or ID of the feed.
    /// * `project`: Project ID or project name
    pub fn get_retention_policy(&self, organization: String, feed_id: String, project: String) -> (r:
        get_retention_policy::Builder)
        ensures
            r.client.endpoint == self.0.endpoint,
            r.client.scopes@ == self.0.scopes@,
            r.client.retry == self.0.retry,
            r.organization == organization,
            r.feed_id == feed_id,
            r.project == project,
    {
        get_retention_policy::Builder {
            client: self.0.clone(),
            organization,
            feed_id,
            project,
        }
    }

    /// Set the retention policy for a feed.
    ///
    /// The project parameter must be supplied if the feed was created in a project.
    /// If the feed is not associated with any project, omit the project parameter from the request.
    ///
    /// Arguments:
    /// * `organization`: The name of the Azure DevOps organization.
    /// * `body`: Feed retention policy.
    /// * `feed_id`: Name or ID of the feed.
    /// * `project`: Project ID or project name
    pub fn set_retention_policy(&self, organization: String, body: Vec<u8>, feed_id: String, project: String) -> (r:
        set_retention_policy::Builder)
        ensures
            r.client.endpoint == self.0.endpoint,
            r.client.scopes@ == self.0.scopes@,
            r.client.retry == self.0.retry,
            r.organization == organization,
            r.body == body,
            r.feed_id == feed_id,
            r.project == project,
    {
        set_retention_policy::Builder {
            client: self.0.clone(),
            organization,
            body,
            feed_id,
            project,
        }
    }

    /// Delete the retention policy for a feed.
    ///
    /// The project parameter must be supplied if the feed was created in a project.
    /// If the feed is not associated with any project, omit the project parameter from the request.
    ///
    /// Arguments:
    /// * `organization`: The name of the Azure DevOps organization.
    /// * `feed_id`: Name or ID of the feed.
    /// * `project`: Project ID or project name
    pub fn delete_retention_policy(&self, organization: String, feed_id: String, project: String) -> (r:
        delete_retention_policy::Builder)
        ensures
            r.client.endpoint == self.0.endpoint,
            r.client.scopes@ == self.0.scopes@,
            r.client.retry == self.0.retry,
            r.organization == organization,
            r.feed_id == feed_id,
            r.project == project,
    {
        delete_retention_policy::Builder {
            client: self.0.clone(),
            organization,
            feed_id,
            project,
        }
    }
}

} // verus!
