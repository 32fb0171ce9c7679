//! Feeds in the recycle bin.

use vstd::prelude::*;

pub mod list;
pub mod restore_deleted_feed;
pub mod permanent_delete_feed;

verus! {

/// The operations of this group, bound to a configured client.
pub struct Client(pub crate::client::Client);

impl Client {
    /// Query for feeds within the recycle bin.
    ///
    /// If the project parameter is present, gets all feeds in recycle bin in the given project.
    /// If omitted, gets all feeds in recycle bin in the organization.
    ///
    /// Arguments:
    /// * `organization`: The name of the Azure DevOps organization.
    /// * `project`: Project ID or project name
    pub fn list(&self, organization: String, project: String) -> (r:
        list::Builder)
        ensures
            r.client.endpoint == self.0.endpoint,
            r.client.scopes@ == self.0.scopes@,
            r.client.retry == self.0.retry,
            r.organization == organization,
            r.project == project,
    {
        list::Builder {
            client: self.0.clone(),
            organization,
            project,
        }
    }

    /// Arguments:
    /// * `organization`: The name of the Azure DevOps organization.
    /// * `project`: Project ID or project name
    pub fn restore_deleted_feed(&self, organization: String, body: Vec<u8>, feed_id: String, project: String) -> (r:
        restore_deleted_feed::Builder)
        ensures
            r.client.endpoint == self.0.endpoint,
            r.client.scopes@ == self.0.scopes@,
            r.client.retry == self.0.retry,
            r.organization == organization,
            r.body == body,
            r.feed_id == feed_id,
            r.project == project,
    {
        restore_deleted_feed::Builder {
            client: self.0.clone(),
            organization,
            body,
            feed_id,
            project,
        }
    }

    /// Arguments:
    /// * `organization`: The name of the Azure DevOps organization.
    /// * `project`: Project ID or project name
    pub fn permanent_delete_feed(&self, organization: String, feed_id: String, project: String) -> (r:
        permanent_delete_feed::Builder)
        ensures
            r.client.endpoint == self.0.endpoint,
            r.client.scopes@ == self.0.scopes@,
            r.client.retry == self.0.retry,
            r.organization == organization,
            r.feed_id == feed_id,
            r.project == project,
    {
        permanent_delete_feed::Builder {
            client: self.0.clone(),
            organization,
            feed_id,
            project,
        }
    }
}

} // verus!
