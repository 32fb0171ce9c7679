//! Packages in the recycle bin.

use vstd::prelude::*;

pub mod get_recycle_bin_packages;
pub mod empty_recycle_bin;
pub mod get_recycle_bin_package;
pub mod get_recycle_bin_package_versions;
pub mod get_recycle_bin_package_version;

verus! {

/// The operations of this group, bound to a configured client.
pub struct Client(pub crate::client::Client);

impl Client {
    /// Query for packages within the recycle bin.
    ///
    /// The project parameter must be supplied if the feed was created in a project.
    /// If the feed is not associated with any project, omit the project parameter from the request.
    ///
    /// Arguments:
    /// * `organization`: The name of the Azure DevOps organization.
    /// * `feed_id`: Name or Id of the feed.
    /// * `project`: Project ID or project name
    pub fn get_recycle_bin_packages(&self, organization: String, feed_id: String, project: String) -> (r:
        get_recycle_bin_packages::Builder)
        ensures
            r.client.endpoint == self.0.endpoint,
            r.client.scopes@ == self.0.scopes@,
            r.client.retry == self.0.retry,
            r.organization == organization,
            r.feed_id == feed_id,
            r.project == project,
            r.protocol_type is None,
            r.package_name_query is None,
            r.include_urls is None,
            r.top is None,
            r.skip is None,
            r.include_all_versions is None,
    {
        get_recycle_bin_packages::Builder {
            client: self.0.clone(),
            organization,
            feed_id,
            project,
            protocol_type: None,
            package_name_query: None,
            include_urls: None,
            top: None,
            skip: None,
            include_all_versions: None,
        }
    }

    /// Queues a job to remove all package versions from a feed's recycle bin
    ///
    /// Arguments:
    /// * `organization`: The name of the Azure DevOps organization.
    /// * `feed_id`: Name or Id of the feed
    /// * `project`: Project ID or project name
    pub fn empty_recycle_bin(&self, organization: String, feed_id: String, project: String) -> (r:
        empty_recycle_bin::Builder)
        ensures
            r.client.endpoint == self.0.endpoint,
            r.client.scopes@ == self.0.scopes@,
            r.client.retry == self.0.retry,
            r.organization == organization,
            r.feed_id == feed_id,
            r.project == project,
    {
        empty_recycle_bin::Builder {
            client: self.0.clone(),
            organization,
            feed_id,
            project,
        }
    }

    /// Get information about a package and all its versions within the recycle bin.
    ///
    /// The project parameter must be supplied if the feed was created in a project.
    /// If the feed is not associated with any project, omit the project parameter from the request.
    ///
    /// Arguments:
    /// * `organization`: The name of the Azure DevOps organization.
    /// * `feed_id`: Name or Id of the feed.
    /// * `package_id`: The package Id (GUID Id, not the package name).
    /// * `project`: Project ID or project name
    pub fn get_recycle_bin_package(&self, organization: String, feed_id: String, package_id: String, project: String) -> (r:
        get_recycle_bin_package::Builder)
        ensures
            r.client.endpoint == self.0.endpoint,
            r.client.scopes@ == self.0.scopes@,
            r.client.retry == self.0.retry,
            r.organization == organization,
            r.feed_id == feed_id,
            r.package_id == package_id,
            r.project == project,
            r.include_urls is None,
    {
        get_recycle_bin_package::Builder {
            client: self.0.clone(),
            organization,
            feed_id,
            package_id,
            project,
            include_urls: None,
        }
    }

    /// Get a list of package versions within the recycle bin.
    ///
    /// The project parameter must be supplied if the feed was created in a project.
    /// If the feed is not associated with any project, omit the project parameter from the request.
    ///
    /// Arguments:
    /// * `organization`: The name of the Azure DevOps organization.
    /// * `feed_id`: Name or Id of the feed.
    /// * `package_id`: The package Id (GUID Id, not the package name).
    /// * `project`: Project ID or project name
    pub fn get_recycle_bin_package_versions(&self, organization: String, feed_id: String, package_id: String, project: String) -> (r:
        get_recycle_bin_package_versions::Builder)
        ensures
            r.client.endpoint == self.0.endpoint,
            r.client.scopes@ == self.0.scopes@,
            r.client.retry == self.0.retry,
            r.organization == organization,
            r.feed_id == feed_id,
            r.package_id == package_id,
            r.project == project,
            r.include_urls is None,
    {
        get_recycle_bin_package_versions::Builder {
            client: self.0.clone(),
            organization,
            feed_id,
            package_id,
            project,
            include_urls: None,
        }
    }

    /// Get information about a package version within the recycle bin.
    ///
    /// The project parameter must be supplied if the feed was created in a project.
    /// If the feed is not associated with any project, omit the project parameter from the request.
    ///
    /// Arguments:
    /// * `organization`: The name of the Azure DevOps organization.
    /// * `feed_id`: Name or Id of the feed.
    /// * `package_id`: The package Id (GUID Id, not the package name).
    /// * `package_version_id`: The package version Id 9guid Id, not the version string).
    /// * `project`: Project ID or project name
    pub fn get_recycle_bin_package_version(&self, organization: String, feed_id: String, package_id: String, package_version_id: String, project: String) -> (r:
        get_recycle_bin_package_version::Builder)
        ensures
            r.client.endpoint == self.0.endpoint,
            r.client.scopes@ == self.0.scopes@,
            r.client.retry == self.0.retry,
            r.organization == organization,
            r.feed_id == feed_id,
            r.package_id == package_id,
            r.package_version_id == package_version_id,
            r.project == project,
            r.include_urls is None,
    {
        get_recycle_bin_package_version::Builder {
            client: self.0.clone(),
            organization,
            feed_id,
            package_id,
            package_version_id,
            project,
            include_urls: None,
        }
    }
}

} // verus!
