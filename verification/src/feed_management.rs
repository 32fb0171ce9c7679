//! Feeds, their views and their permissions.

use vstd::prelude::*;

pub mod get_feeds;
pub mod create_feed;
pub mod get_feed;
pub mod update_feed;
pub mod delete_feed;
pub mod get_feed_permissions;
pub mod set_feed_permissions;
pub mod get_feed_views;
pub mod create_feed_view;
pub mod get_feed_view;
pub mod update_feed_view;
pub mod delete_feed_view;

verus! {

/// The operations of this group, bound to a configured client.
pub struct Client(pub crate::client::Client);

impl Client {
    /// Get all feeds in an account where you have the provided role access.
    ///
    /// If the project parameter is present, gets all feeds in the given project.
    /// If omitted, gets all feeds in the organization.
    ///
    /// Arguments:
    /// * `organization`: The name of the Azure DevOps organization.
    /// * `project`: Project ID or project name
    pub fn get_feeds(&self, organization: String, project: String) -> (r:
        get_feeds::Builder)
        ensures
            r.client.endpoint == self.0.endpoint,
            r.client.scopes@ == self.0.scopes@,
            r.client.retry == self.0.retry,
            r.organization == organization,
            r.project == project,
            r.feed_role is None,
            r.include_deleted_upstreams is None,
            r.include_urls is None,
    {
        get_feeds::Builder {
            client: self.0.clone(),
            organization,
            project,
            feed_role: None,
            include_deleted_upstreams: None,
            include_urls: None,
        }
    }

    /// Create a feed, a container for various package types.
    ///
    /// Feeds can be created in a project if the project parameter is included in the request url.
    /// If the project parameter is omitted, the feed will not be associated with a project and will be created at the organization level.
    ///
    /// Arguments:
    /// * `organization`: The name of the Azure DevOps organization.
    /// * `body`: A JSON object containing both required and optional attributes for the feed. Name is the only required value.
    /// * `project`: Project ID or project name
    pub fn create_feed(&self, organization: String, body: Vec<u8>, project: String) -> (r:
        create_feed::Builder)
        ensures
            r.client.endpoint == self.0.endpoint,
            r.client.scopes@ == self.0.scopes@,
            r.client.retry == self.0.retry,
            r.organization == organization,
            r.body == body,
            r.project == project,
    {
        create_feed::Builder {
            client: self.0.clone(),
            organization,
            body,
            project,
        }
    }

    /// Get the settings for a specific feed.
    ///
    /// The project parameter must be supplied if the feed was created in a project.
    /// If the feed is not associated with any project, omit the project parameter from the request.
    ///
    /// Arguments:
    /// * `organization`: The name of the Azure DevOps organization.
    /// * `feed_id`: Name or Id of the feed.
    /// * `project`: Project ID or project name
    pub fn get_feed(&self, organization: String, feed_id: String, project: String) -> (r:
        get_feed::Builder)
        ensures
            r.client.endpoint == self.0.endpoint,
            r.client.scopes@ == self.0.scopes@,
            r.client.retry == self.0.retry,
            r.organization == organization,
            r.feed_id == feed_id,
            r.project == project,
            r.include_deleted_upstreams is None,
    {
        get_feed::Builder {
            client: self.0.clone(),
            organization,
            feed_id,
            project,
            include_deleted_upstreams: None,
        }
    }

    /// Change the attributes of a feed.
    ///
    /// The project parameter must be supplied if the feed was created in a project.
    /// If the feed is not associated with any project, omit the project parameter from the request.
    ///
    /// Arguments:
    /// * `organization`: The name of the Azure DevOps organization.
    /// * `body`: A JSON object containing the feed settings to be updated.
    /// * `feed_id`: Name or Id of the feed.
    /// * `project`: Project ID or project name
    pub fn update_feed(&self, organization: String, body: Vec<u8>, feed_id: String, project: String) -> (r:
        update_feed::Builder)
        ensures
            r.client.endpoint == self.0.endpoint,
            r.client.scopes@ == self.0.scopes@,
            r.client.retry == self.0.retry,
            r.organization == organization,
            r.body == body,
            r.feed_id == feed_id,
            r.project == project,
    {
        update_feed::Builder {
            client: self.0.clone(),
            organization,
            body,
            feed_id,
            project,
        }
    }

    /// Remove a feed and all its packages. The feed moves to the recycle bin and is reversible.
    ///
    /// The project parameter must be supplied if the feed was created in a project.
    /// If the feed is not associated with any project, omit the project parameter from the request.
    ///
    /// Arguments:
    /// * `organization`: The name of the Azure DevOps organization.
    /// * `feed_id`: Name or Id of the feed.
    /// * `project`: Project ID or project name
    pub fn delete_feed(&self, organization: String, feed_id: String, project: String) -> (r:
        delete_feed::Builder)
        ensures
            r.client.endpoint == self.0.endpoint,
            r.client.scopes@ == self.0.scopes@,
            r.client.retry == self.0.retry,
            r.organization == organization,
            r.feed_id == feed_id,
            r.project == project,
    {
        delete_feed::Builder {
            client: self.0.clone(),
            organization,
            feed_id,
            project,
        }
    }

    /// Get the permissions for a feed.
    ///
    /// The project parameter must be supplied if the feed was created in a project.
    /// If the feed is not associated with any project, omit the project parameter from the request.
    ///
    /// Arguments:
    /// * `organization`: The name of the Azure DevOps organization.
    /// * `feed_id`: Name or Id of the feed.
    /// * `project`: Project ID or project name
    pub fn get_feed_permissions(&self, organization: String, feed_id: String, project: String) -> (r:
        get_feed_permissions::Builder)
        ensures
            r.client.endpoint == self.0.endpoint,
            r.client.scopes@ == self.0.scopes@,
            r.client.retry == self.0.retry,
            r.organization == organization,
            r.feed_id == feed_id,
            r.project == project,
            r.include_ids is None,
            r.exclude_inherited_permissions is None,
            r.identity_descriptor is None,
            r.include_deleted_feeds is None,
    {
        get_feed_permissions::Builder {
            client: self.0.clone(),
            organization,
            feed_id,
            project,
            include_ids: None,
            exclude_inherited_permissions: None,
            identity_descriptor: None,
            include_deleted_feeds: None,
        }
    }

    /// Update the permissions on a feed.
    ///
    /// The project parameter must be supplied if the feed was created in a project.
    /// If the feed is not associated with any project, omit the project parameter from the request.
    ///
    /// Arguments:
    /// * `organization`: The name of the Azure DevOps organization.
    /// * `body`: Permissions to set.
    /// * `feed_id`: Name or Id of the feed.
    /// * `project`: Project ID or project name
    pub fn set_feed_permissions(&self, organization: String, body: Vec<u8>, feed_id: String, project: String) -> (r:
        set_feed_permissions::Builder)
        ensures
            r.client.endpoint == self.0.endpoint,
            r.client.scopes@ == self.0.scopes@,
            r.client.retry == self.0.retry,
            r.organization == organization,
            r.body == body,
            r.feed_id == feed_id,
            r.project == project,
    {
        set_feed_permissions::Builder {
            client: self.0.clone(),
            organization,
            body,
            feed_id,
            project,
        }
    }

    /// Get all views for a feed.
    ///
    /// The project parameter must be supplied if the feed was created in a project.
    ///
    /// Arguments:
    /// * `organization`: The name of the Azure DevOps organization.
    /// * `feed_id`: Name or Id of the feed.
    /// * `project`: Project ID or project name
    pub fn get_feed_views(&self, organization: String, feed_id: String, project: String) -> (r:
        get_feed_views::Builder)
        ensures
            r.client.endpoint == self.0.endpoint,
            r.client.scopes@ == self.0.scopes@,
            r.client.retry == self.0.retry,
            r.organization == organization,
            r.feed_id == feed_id,
            r.project == project,
    {
        get_feed_views::Builder {
            client: self.0.clone(),
            organization,
            feed_id,
            project,
        }
    }

    /// Create a new view on the referenced feed.
    ///
    /// The project parameter must be supplied if the feed was created in a project.
    ///
    /// Arguments:
    /// * `organization`: The name of the Azure DevOps organization.
    /// * `body`: View to be created.
    /// * `feed_id`: Name or Id of the feed.
    /// * `project`: Project ID or project name
    pub fn create_feed_view(&self, organization: String, body: Vec<u8>, feed_id: String, project: String) -> (r:
        create_feed_view::Builder)
        ensures
            r.client.endpoint == self.0.endpoint,
            r.client.scopes@ == self.0.scopes@,
            r.client.retry == self.0.retry,
            r.organization == organization,
            r.body == body,
            r.feed_id == feed_id,
            r.project == project,
    {
        create_feed_view::Builder {
            client: self.0.clone(),
            organization,
            body,
            feed_id,
            project,
        }
    }

    /// Get a view by Id.
    ///
    /// The project parameter must be supplied if the feed was created in a project.
    ///
    /// Arguments:
    /// * `organization`: The name of the Azure DevOps organization.
    /// * `feed_id`: Name or Id of the feed.
    /// * `view_id`: Name or Id of the view.
    /// * `project`: Project ID or project name
    pub fn get_feed_view(&self, organization: String, feed_id: String, view_id: String, project: String) -> (r:
        get_feed_view::Builder)
        ensures
            r.client.endpoint == self.0.endpoint,
            r.client.scopes@ == self.0.scopes@,
            r.client.retry == self.0.retry,
            r.organization == organization,
            r.feed_id == feed_id,
            r.view_id == view_id,
            r.project == project,
    {
        get_feed_view::Builder {
            client: self.0.clone(),
            organization,
            feed_id,
            view_id,
            project,
        }
    }

    /// Update a view.
    ///
    /// The project parameter must be supplied if the feed was created in a project.
    ///
    /// Arguments:
    /// * `organization`: The name of the Azure DevOps organization.
    /// * `body`: New settings to apply to the specified view.
    /// * `feed_id`: Name or Id of the feed.
    /// * `view_id`: Name or Id of the view.
    /// * `project`: Project ID or project name
    pub fn update_feed_view(&self, organization: String, body: Vec<u8>, feed_id: String, view_id: String, project: String) -> (r:
        update_feed_view::Builder)
        ensures
            r.client.endpoint == self.0.endpoint,
            r.client.scopes@ == self.0.scopes@,
            r.client.retry == self.0.retry,
            r.organization == organization,
            r.body == body,
            r.feed_id == feed_id,
            r.view_id == view_id,
            r.project == project,
    {
        update_feed_view::Builder {
            client: self.0.clone(),
            organization,
            body,
            feed_id,
            view_id,
            project,
        }
    }

    /// Delete a feed view.
    ///
    /// The project parameter must be supplied if the feed was created in a project.
    ///
    /// Arguments:
    /// * `organization`: The name of the Azure DevOps organization.
    /// * `feed_id`: Name or Id of the feed.
    /// * `view_id`: Name or Id of the view.
    /// * `project`: Project ID or project name
    pub fn delete_feed_view(&self, organization: String, feed_id: String, view_id: String, project: String) -> (r:
        delete_feed_view::Builder)
        ensures
            r.client.endpoint == self.0.endpoint,
            r.client.scopes@ == self.0.scopes@,
            r.client.retry == self.0.retry,
            r.organization == organization,
            r.feed_id == feed_id,
            r.view_id == view_id,
            r.project == project,
    {
        delete_feed_view::Builder {
            client: self.0.clone(),
            organization,
            feed_id,
            view_id,
            project,
        }
    }
}

} // verus!
