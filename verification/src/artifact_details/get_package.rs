//! Builds the `get_package` request of the `artifact_details` group. The embedding
//! application adds the authorization header at send time.

use vstd::prelude::*;
use vstd::string::*;
use crate::client::Client;
use crate::encode::bool_chars;
use crate::http::Method;
use crate::http::Request;
use crate::urlbuild::api_version_chars;
use crate::urlbuild::append_api_version;
use crate::urlbuild::append_path_segment;
use crate::urlbuild::append_query_pair_bool;
use crate::urlbuild::query_pair;

verus! {

/// Collects the operation's parameters.
pub struct Builder {
    pub client: Client,
    pub organization: String,
    pub feed_id: String,
    pub package_id: String,
    pub project: String,
    pub include_all_versions: Option<bool>,
    pub include_urls: Option<bool>,
    pub is_listed: Option<bool>,
    pub is_release: Option<bool>,
    pub include_deleted: Option<bool>,
    pub include_description: Option<bool>,
}

impl Builder {
    /// Set to true to return all versions of the package in the response. Default is false (latest version only).
    pub fn include_all_versions(self, include_all_versions: bool) -> (r: Self)
        ensures
            r == (Builder { include_all_versions: Some(include_all_versions), ..self }),
    {
        Builder { include_all_versions: Some(include_all_versions), ..self }
    }

    /// Set to true to return REST Urls with the response. Default is True.
    pub fn include_urls(self, include_urls: bool) -> (r: Self)
        ensures
            r == (Builder { include_urls: Some(include_urls), ..self }),
    {
        Builder { include_urls: Some(include_urls), ..self }
    }

    /// Only applicable for NuGet packages, setting it for other package types will result in a 404. If false, delisted package versions will be returned. Use this to filter the response when include_all_versions is set to true. Default is unset (do not return delisted packages).
    pub fn is_listed(self, is_listed: bool) -> (r: Self)
        ensures
            r == (Builder { is_listed: Some(is_listed), ..self }),
    {
        Builder { is_listed: Some(is_listed), ..self }
    }

    /// Only applicable for Nuget packages. Use this to filter the response when include_all_versions is set to true.  Default is True (only return packages without prerelease versioning).
    pub fn is_release(self, is_release: bool) -> (r: Self)
        ensures
            r == (Builder { is_release: Some(is_release), ..self }),
    {
        Builder { is_release: Some(is_release), ..self }
    }

    /// Return deleted or unpublished versions of packages in the response. Default is False.
    pub fn include_deleted(self, include_deleted: bool) -> (r: Self)
        ensures
            r == (Builder { include_deleted: Some(include_deleted), ..self }),
    {
        Builder { include_deleted: Some(include_deleted), ..self }
    }

    /// Return the description for every version of each package in the response. Default is False.
    pub fn include_description(self, include_description: bool) -> (r: Self)
        ensures
            r == (Builder { include_description: Some(include_description), ..self }),
    {
        Builder { include_description: Some(include_description), ..self }
    }

    /// The URL the request goes to.
    pub open spec fn spec_url(self) -> Seq<char> {
        self.client.endpoint@
            + seq!['/']
            + self.organization@
            + seq!['/']
            + self.project@
            + "/_apis/packaging/Feeds"@
            + seq!['/']
            + self.feed_id@
            + "/packages"@
            + seq!['/']
            + self.package_id@
            + query_pair(
                    true,
                    "api-version"@,
                    api_version_chars(),
                )
            + (match self.include_all_versions {
                    Some(v) => query_pair(false, "includeAllVersions"@, bool_chars(v)),
                    None => Seq::<char>::empty(),
                })
            + (match self.include_urls {
                    Some(v) => query_pair(false, "includeUrls"@, bool_chars(v)),
                    None => Seq::<char>::empty(),
                })
            + (match self.is_listed {
                    Some(v) => query_pair(false, "isListed"@, bool_chars(v)),
                    None => Seq::<char>::empty(),
                })
            + (match self.is_release {
                    Some(v) => query_pair(false, "isRelease"@, bool_chars(v)),
                    None => Seq::<char>::empty(),
                })
            + (match self.include_deleted {
                    Some(v) => query_pair(false, "includeDeleted"@, bool_chars(v)),
                    None => Seq::<char>::empty(),
                })
            + (match self.include_description {
                    Some(v) => query_pair(false, "includeDescription"@, bool_chars(v)),
                    None => Seq::<char>::empty(),
                })
    }

    /// The finished request: a GET of the operation's URL, with no
    /// extra headers and an empty body.
    pub fn request(&self) -> (r: Request)
        ensures
            r.method == Method::Get,
            r.url@ == self.spec_url(),
            r.headers@.len() == 0,
            r.body@.len() == 0,
    {
        let mut url = self.client.endpoint.clone();
        append_path_segment(&mut url, self.organization.as_str());
        append_path_segment(&mut url, self.project.as_str());
        url.append("/_apis/packaging/Feeds");
        append_path_segment(&mut url, self.feed_id.as_str());
        url.append("/packages");
        append_path_segment(&mut url, self.package_id.as_str());
        append_api_version(&mut url);
        if let Some(v) = self.include_all_versions {
            append_query_pair_bool(&mut url, false, "includeAllVersions", v);
        }
        if let Some(v) = self.include_urls {
            append_query_pair_bool(&mut url, false, "includeUrls", v);
        }
        if let Some(v) = self.is_listed {
            append_query_pair_bool(&mut url, false, "isListed", v);
        }
        if let Some(v) = self.is_release {
            append_query_pair_bool(&mut url, false, "isRelease", v);
        }
        if let Some(v) = self.include_deleted {
            append_query_pair_bool(&mut url, false, "includeDeleted", v);
        }
        if let Some(v) = self.include_description {
            append_query_pair_bool(&mut url, false, "includeDescription", v);
        }
        proof {
            assert(url@ =~= self.spec_url());
        }
        Request { method: Method::Get, url, headers: Vec::new(), body: Vec::new() }
    }
}

} // verus!
