//! Packages, their versions and their metrics.

use vstd::prelude::*;

pub mod query_package_metrics;
pub mod get_packages;
pub mod get_package;
pub mod query_package_version_metrics;
pub mod get_package_versions;
pub mod get_package_version;
pub mod get_package_version_provenance;
pub mod get_badge;

verus! {

/// The operations of this group, bound to a configured client.
pub struct Client(pub crate::client::Client);

impl Client {
    /// Arguments:
    /// * `organization`: The name of the Azure DevOps organization.
    /// * `project`: Project ID or project name
    pub fn query_package_metrics(&self, organization: String, body: Vec<u8>, feed_id: String, project: String) -> (r:
        query_package_metrics::Builder)
        ensures
            r.client.endpoint == self.0.endpoint,
            r.client.scopes@ == self.0.scopes@,
            r.client.retry == self.0.retry,
            r.organization == organization,
            r.body == body,
            r.feed_id == feed_id,
            r.project == project,
    {
        query_package_metrics::Builder {
            client: self.0.clone(),
            organization,
            body,
            feed_id,
            project,
        }
    }

    /// Get details about all of the packages in the feed. Use the various filters to include or exclude information from the result set.
    ///
    /// The project parameter must be supplied if the feed was created in a project.
    /// If the feed is not associated with any project, omit the project parameter from the request.
    ///
    /// Arguments:
    /// * `organization`: The name of the Azure DevOps organization.
    /// * `feed_id`: Name or Id of the feed.
    /// * `project`: Project ID or project name
    pub fn get_packages(&self, organization: String, feed_id: String, project: String) -> (r:
        get_packages::Builder)
        ensures
            r.client.endpoint == self.0.endpoint,
            r.client.scopes@ == self.0.scopes@,
            r.client.retry == self.0.retry,
            r.organization == organization,
            r.feed_id == feed_id,
            r.project == project,
            r.protocol_type is None,
            r.package_name_query is None,
            r.normalized_package_name is None,
            r.include_urls is None,
            r.include_all_versions is None,
            r.is_listed is None,
            r.get_top_package_versions is None,
            r.is_release is None,
            r.include_description is None,
            r.top is None,
            r.skip is None,
            r.include_deleted is None,
            r.is_cached is None,
            r.direct_upstream_id is None,
    {
        get_packages::Builder {
            client: self.0.clone(),
            organization,
            feed_id,
            project,
            protocol_type: None,
            package_name_query: None,
            normalized_package_name: None,
            include_urls: None,
            include_all_versions: None,
            is_listed: None,
            get_top_package_versions: None,
            is_release: None,
            include_description: None,
            top: None,
            skip: None,
            include_deleted: None,
            is_cached: None,
            direct_upstream_id: None,
        }
    }

    /// Get details about a specific package.
    ///
    /// The project parameter must be supplied if the feed was created in a project.
    /// If the feed is not associated with any project, omit the project parameter from the request.
    ///
    /// Arguments:
    /// * `organization`: The name of the Azure DevOps organization.
    /// * `feed_id`: Name or Id of the feed.
    /// * `package_id`: The package Id (GUID Id, not the package name).
    /// * `project`: Project ID or project name
    pub fn get_package(&self, organization: String, feed_id: String, package_id: String, project: String) -> (r:
        get_package::Builder)
        ensures
            r.client.endpoint == self.0.endpoint,
            r.client.scopes@ == self.0.scopes@,
            r.client.retry == self.0.retry,
            r.organization == organization,
            r.feed_id == feed_id,
            r.package_id == package_id,
            r.project == project,
            r.include_all_versions is None,
            r.include_urls is None,
            r.is_listed is None,
            r.is_release is None,
            r.include_deleted is None,
            r.include_description is None,
    {
        get_package::Builder {
            client: self.0.clone(),
            organization,
            feed_id,
            package_id,
            project,
            include_all_versions: None,
            include_urls: None,
            is_listed: None,
            is_release: None,
            include_deleted: None,
            include_description: None,
        }
    }

    /// Arguments:
    /// * `organization`: The name of the Azure DevOps organization.
    /// * `project`: Project ID or project name
    pub fn query_package_version_metrics(&self, organization: String, body: Vec<u8>, feed_id: String, package_id: String, project: String) -> (r:
        query_package_version_metrics::Builder)
        ensures
            r.client.endpoint == self.0.endpoint,
            r.client.scopes@ == self.0.scopes@,
            r.client.retry == self.0.retry,
            r.organization == organization,
            r.body == body,
            r.feed_id == feed_id,
            r.package_id == package_id,
            r.project == project,
    {
        query_package_version_metrics::Builder {
            client: self.0.clone(),
            organization,
            body,
            feed_id,
            package_id,
            project,
        }
    }

    /// Get a list of package versions, optionally filtering by state.
    ///
    /// The project parameter must be supplied if the feed was created in a project.
    /// If the feed is not associated with any project, omit the project parameter from the request.
    ///
    /// Arguments:
    /// * `organization`: The name of the Azure DevOps organization.
    /// * `feed_id`: Name or Id of the feed.
    /// * `package_id`: Id of the package (GUID Id, not name).
    /// * `project`: Project ID or project name
    pub fn get_package_versions(&self, organization: String, feed_id: String, package_id: String, project: String) -> (r:
        get_package_versions::Builder)
        ensures
            r.client.endpoint == self.0.endpoint,
            r.client.scopes@ == self.0.scopes@,
            r.client.retry == self.0.retry,
            r.organization == organization,
            r.feed_id == feed_id,
            r.package_id == package_id,
            r.project == project,
            r.include_urls is None,
            r.is_listed is None,
            r.is_deleted is None,
    {
        get_package_versions::Builder {
            client: self.0.clone(),
            organization,
            feed_id,
            package_id,
            project,
            include_urls: None,
            is_listed: None,
            is_deleted: None,
        }
    }

    /// Get details about a specific package version.
    ///
    /// The project parameter must be supplied if the feed was created in a project.
    /// If the feed is not associated with any project, omit the project parameter from the request.
    ///
    /// Arguments:
    /// * `organization`: The name of the Azure DevOps organization.
    /// * `feed_id`: Name or Id of the feed.
    /// * `package_id`: Id of the package (GUID Id, not name).
    /// * `package_version_id`: Id of the package version (GUID Id, not name).
    /// * `project`: Project ID or project name
    pub fn get_package_version(&self, organization: String, feed_id: String, package_id: String, package_version_id: String, project: String) -> (r:
        get_package_version::Builder)
        ensures
            r.client.endpoint == self.0.endpoint,
            r.client.scopes@ == self.0.scopes@,
            r.client.retry == self.0.retry,
            r.organization == organization,
            r.feed_id == feed_id,
            r.package_id == package_id,
            r.package_version_id == package_version_id,
            r.project == project,
            r.include_urls is None,
            r.is_listed is None,
            r.is_deleted is None,
    {
        get_package_version::Builder {
            client: self.0.clone(),
            organization,
            feed_id,
            package_id,
            package_version_id,
            project,
            include_urls: None,
            is_listed: None,
            is_deleted: None,
        }
    }

    /// Gets provenance for a package version.
    ///
    /// The project parameter must be supplied if the feed was created in a project.
    /// If the feed is not associated with any project, omit the project parameter from the request.
    ///
    /// Arguments:
    /// * `organization`: The name of the Azure DevOps organization.
    /// * `feed_id`: Name or Id of the feed.
    /// * `package_id`: Id of the package (GUID Id, not name).
    /// * `package_version_id`: Id of the package version (GUID Id, not name).
    /// * `project`: Project ID or project name
    pub fn get_package_version_provenance(&self, organization: String, feed_id: String, package_id: String, package_version_id: String, project: String) -> (r:
        get_package_version_provenance::Builder)
        ensures
            r.client.endpoint == self.0.endpoint,
            r.client.scopes@ == self.0.scopes@,
            r.client.retry == self.0.retry,
            r.organization == organization,
            r.feed_id == feed_id,
            r.package_id == package_id,
            r.package_version_id == package_version_id,
            r.project == project,
    {
        get_package_version_provenance::Builder {
            client: self.0.clone(),
            organization,
            feed_id,
            package_id,
            package_version_id,
            project,
        }
    }

    /// Generate a SVG badge for the latest version of a package.  The generated SVG is typically used as the image in an HTML link which takes users to the feed containing the package to accelerate discovery and consumption.
    ///
    /// The project parameter must be supplied if the feed was created in a project.
    /// If the feed is not associated with any project, omit the project parameter from the request.
    ///
    /// Arguments:
    /// * `organization`: The name of the Azure DevOps organization.
    /// * `feed_id`: Name or Id of the feed.
    /// * `package_id`: Id of the package (GUID Id, not name).
    /// * `project`: Project ID or project name
    pub fn get_badge(&self, organization: String, feed_id: String, package_id: String, project: String) -> (r:
        get_badge::Builder)
        ensures
            r.client.endpoint == self.0.endpoint,
            r.client.scopes@ == self.0.scopes@,
            r.client.retry == self.0.retry,
            r.organization == organization,
            r.feed_id == feed_id,
            r.package_id == package_id,
            r.project == project,
    {
        get_badge::Builder {
            client: self.0.clone(),
            organization,
            feed_id,
            package_id,
            project,
        }
    }
}

} // verus!
