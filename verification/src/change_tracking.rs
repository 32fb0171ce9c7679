//! Feed and package change tracking.

use vstd::prelude::*;

pub mod get_feed_changes;
pub mod get_feed_change;
pub mod get_package_changes;

verus! {

/// The operations of this group, bound to a configured client.
pub struct Client(pub crate::client::Client);

impl Client {
    /// Query to determine which feeds have changed since the last call, tracked through the provided continuation token. Only changes to a feed itself are returned and impact the continuation token, not additions or alterations to packages within the feeds.
    ///
    /// If the project parameter is present, gets all feed changes in the given project.
    /// If omitted, gets all feed changes in the organization.
    ///
    /// Arguments:
    /// * `organization`: The name of the Azure DevOps organization.
    /// * `project`: Project ID or project name
    pub fn get_feed_changes(&self, organization: String, project: String) -> (r:
        get_feed_changes::Builder)
        ensures
            r.client.endpoint == self.0.endpoint,
            r.client.scopes@ == self.0.scopes@,
            r.client.retry == self.0.retry,
            r.organization == organization,
            r.project == project,
            r.include_deleted is None,
            r.continuation_token is None,
            r.batch_size is None,
    {
        get_feed_changes::Builder {
            client: self.0.clone(),
            organization,
            project,
            include_deleted: None,
            continuation_token: None,
            batch_size: None,
        }
    }

    /// Query a feed to determine its current state.
    ///
    /// The project parameter must be supplied if the feed was created in a project.
    /// If the feed is not associated with any project, omit the project parameter from the request.
    ///
    /// Arguments:
    /// * `organization`: The name of the Azure DevOps organization.
    /// * `feed_id`: Name or ID of the feed.
    /// * `project`: Project ID or project name
    pub fn get_feed_change(&self, organization: String, feed_id: String, project: String) -> (r:
        get_feed_change::Builder)
        ensures
            r.client.endpoint == self.0.endpoint,
            r.client.scopes@ == self.0.scopes@,
            r.client.retry == self.0.retry,
            r.organization == organization,
            r.feed_id == feed_id,
            r.project == project,
    {
        get_feed_change::Builder {
            client: self.0.clone(),
            organization,
            feed_id,
            project,
        }
    }

    /// Get a batch of package changes made to a feed.  The changes returned are 'most recent change' so if an Add is followed by an Update before you begin enumerating, you'll only see one change in the batch.  While consuming batches using the continuation token, you may see changes to the same package version multiple times if they are happening as you enumerate.
    ///
    /// The project parameter must be supplied if the feed was created in a project.
    /// If the feed is not associated with any project, omit the project parameter from the request.
    ///
    /// Arguments:
    /// * `organization`: The name of the Azure DevOps organization.
    /// * `feed_id`: Name or Id of the feed.
    /// * `project`: Project ID or project name
    pub fn get_package_changes(&self, organization: String, feed_id: String, project: String) -> (r:
        get_package_changes::Builder)
        ensures
            r.client.endpoint == self.0.endpoint,
            r.client.scopes@ == self.0.scopes@,
            r.client.retry == self.0.retry,
            r.organization == organization,
            r.feed_id == feed_id,
            r.project == project,
            r.continuation_token is None,
            r.batch_size is None,
    {
        get_package_changes::Builder {
            client: self.0.clone(),
            organization,
            feed_id,
            project,
            continuation_token: None,
            batch_size: None,
        }
    }
}

} // verus!
