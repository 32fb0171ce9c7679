//! Builds the `get_packages` request of the `artifact_details` group. The embedding
//! application adds the authorization header at send time.

use vstd::prelude::*;
use vstd::string::*;
use crate::client::Client;
use crate::encode::bool_chars;
use crate::encode::dec_of_i64;
use crate::encode::form_encoded;
use crate::http::Method;
use crate::http::Request;
use crate::urlbuild::api_version_chars;
use crate::urlbuild::append_api_version;
use crate::urlbuild::append_path_segment;
use crate::urlbuild::append_query_pair;
use crate::urlbuild::append_query_pair_bool;
use crate::urlbuild::append_query_pair_i64;
use crate::urlbuild::query_pair;

verus! {

/// Collects the operation's parameters.
pub struct Builder {
    pub client: Client,
    pub organization: String,
    pub feed_id: String,
    pub project: String,
    pub protocol_type: Option<String>,
    pub package_name_query: Option<String>,
    pub normalized_package_name: Option<String>,
    pub include_urls: Option<bool>,
    pub include_all_versions: Option<bool>,
    pub is_listed: Option<bool>,
    pub get_top_package_versions: Option<bool>,
    pub is_release: Option<bool>,
    pub include_description: Option<bool>,
    pub top: Option<i32>,
    pub skip: Option<i32>,
    pub include_deleted: Option<bool>,
    pub is_cached: Option<bool>,
    pub direct_upstream_id: Option<String>,
}

impl Builder {
    /// One of the supported artifact package types.
    pub fn protocol_type(self, protocol_type: String) -> (r: Self)
        ensures
            r == (Builder { protocol_type: Some(protocol_type), ..self }),
    {
        Builder { protocol_type: Some(protocol_type), ..self }
    }

    /// Filter to packages that contain the provided string. Characters in the string must conform to the package name constraints.
    pub fn package_name_query(self, package_name_query: String) -> (r: Self)
        ensures
            r == (Builder { package_name_query: Some(package_name_query), ..self }),
    {
        Builder { package_name_query: Some(package_name_query), ..self }
    }

    /// [Obsolete] Used for legacy scenarios and may be removed in future versions.
    pub fn normalized_package_name(self, normalized_package_name: String) -> (r: Self)
        ensures
            r == (Builder { normalized_package_name: Some(normalized_package_name), ..self }),
    {
        Builder { normalized_package_name: Some(normalized_package_name), ..self }
    }

    /// Set to true to return REST Urls with the response. Default is True.
    pub fn include_urls(self, include_urls: bool) -> (r: Self)
        ensures
            r == (Builder { include_urls: Some(include_urls), ..self }),
    {
        Builder { include_urls: Some(include_urls), ..self }
    }

    /// Set to true to return all versions of the package in the response. Default is false (latest version only).
    pub fn include_all_versions(self, include_all_versions: bool) -> (r: Self)
        ensures
            r == (Builder { include_all_versions: Some(include_all_versions), ..self }),
    {
        Builder { include_all_versions: Some(include_all_versions), ..self }
    }

    /// Only applicable for NuGet packages, setting it for other package types will result in a 404. If false, delisted package versions will be returned. Use this to filter the response when include_all_versions is set to true. Default is unset (do not return delisted packages).
    pub fn is_listed(self, is_listed: bool) -> (r: Self)
        ensures
            r == (Builder { is_listed: Some(is_listed), ..self }),
    {
        Builder { is_listed: Some(is_listed), ..self }
    }

    /// Changes the behavior of $top and $skip to return all versions of each package up to $top. Must be used in conjunction with include_all_versions=true
    pub fn get_top_package_versions(self, get_top_package_versions: bool) -> (r: Self)
        ensures
            r == (Builder { get_top_package_versions: Some(get_top_package_versions), ..self }),
    {
        Builder { get_top_package_versions: Some(get_top_package_versions), ..self }
    }

    /// Only applicable for Nuget packages. Use this to filter the response when include_all_versions is set to true. Default is True (only return packages without prerelease versioning).
    pub fn is_release(self, is_release: bool) -> (r: Self)
        ensures
            r == (Builder { is_release: Some(is_release), ..self }),
    {
        Builder { is_release: Some(is_release), ..self }
    }

    /// Return the description for every version of each package in the response. Default is False.
    pub fn include_description(self, include_description: bool) -> (r: Self)
        ensures
            r == (Builder { include_description: Some(include_description), ..self }),
    {
        Builder { include_description: Some(include_description), ..self }
    }

    /// Get the top N packages (or package versions where get_top_package_versions=true)
    pub fn top(self, top: i32) -> (r: Self)
        ensures
            r == (Builder { top: Some(top), ..self }),
    {
        Builder { top: Some(top), ..self }
    }

    /// Skip the first N packages (or package versions where get_top_package_versions=true)
    pub fn skip(self, skip: i32) -> (r: Self)
        ensures
            r == (Builder { skip: Some(skip), ..self }),
    {
        Builder { skip: Some(skip), ..self }
    }

    /// Return deleted or unpublished versions of packages in the response. Default is False.
    pub fn include_deleted(self, include_deleted: bool) -> (r: Self)
        ensures
            r == (Builder { include_deleted: Some(include_deleted), ..self }),
    {
        Builder { include_deleted: Some(include_deleted), ..self }
    }

    /// [Obsolete] Used for legacy scenarios and may be removed in future versions.
    pub fn is_cached(self, is_cached: bool) -> (r: Self)
        ensures
            r == (Builder { is_cached: Some(is_cached), ..self }),
    {
        Builder { is_cached: Some(is_cached), ..self }
    }

    /// Filter results to return packages from a specific upstream.
    pub fn direct_upstream_id(self, direct_upstream_id: String) -> (r: Self)
        ensures
            r == (Builder { direct_upstream_id: Some(direct_upstream_id), ..self }),
    {
        Builder { direct_upstream_id: Some(direct_upstream_id), ..self }
    }

    /// The URL the request goes to.
    pub open spec fn spec_url(self) -> Seq<char> {
        self.client.endpoint@
            + seq!['/']
            + self.organization@
            + seq!['/']
            + self.project@
            + "/_apis/packaging/Feeds"@
            + seq!['/']
            + self.feed_id@
            + "/packages"@
            + query_pair(
                    true,
                    "api-version"@,
                    api_version_chars(),
                )
            + (match self.protocol_type {
                    Some(v) => query_pair(false, "protocolType"@, form_encoded(v@)),
                    None => Seq::<char>::empty(),
                })
            + (match self.package_name_query {
                    Some(v) => query_pair(false, "packageNameQuery"@, form_encoded(v@)),
                    None => Seq::<char>::empty(),
                })
            + (match self.normalized_package_name {
                    Some(v) => query_pair(false, "normalizedPackageName"@, form_encoded(v@)),
                    None => Seq::<char>::empty(),
                })
            + (match self.include_urls {
                    Some(v) => query_pair(false, "includeUrls"@, bool_chars(v)),
                    None => Seq::<char>::empty(),
                })
            + (match self.include_all_versions {
                    Some(v) => query_pair(false, "includeAllVersions"@, bool_chars(v)),
                    None => Seq::<char>::empty(),
                })
            + (match self.is_listed {
                    Some(v) => query_pair(false, "isListed"@, bool_chars(v)),
                    None => Seq::<char>::empty(),
                })
            + (match self.get_top_package_versions {
                    Some(v) => query_pair(false, "getTopPackageVersions"@, bool_chars(v)),
                    None => Seq::<char>::empty(),
                })
            + (match self.is_release {
                    Some(v) => query_pair(false, "isRelease"@, bool_chars(v)),
                    None => Seq::<char>::empty(),
                })
            + (match self.include_description {
                    Some(v) => query_pair(false, "includeDescription"@, bool_chars(v)),
                    None => Seq::<char>::empty(),
                })
            + (match self.top {
                    Some(v) => query_pair(false, "$top"@, dec_of_i64(v as int)),
                    None => Seq::<char>::empty(),
                })
            + (match self.skip {
                    Some(v) => query_pair(false, "$skip"@, dec_of_i64(v as int)),
                    None => Seq::<char>::empty(),
                })
            + (match self.include_deleted {
                    Some(v) => query_pair(false, "includeDeleted"@, bool_chars(v)),
                    None => Seq::<char>::empty(),
                })
            + (match self.is_cached {
                    Some(v) => query_pair(false, "isCached"@, bool_chars(v)),
                    None => Seq::<char>::empty(),
                })
            + (match self.direct_upstream_id {
                    Some(v) => query_pair(false, "directUpstreamId"@, form_encoded(v@)),
                    None => Seq::<char>::empty(),
                })
    }

    /// The finished request: a GET of the operation's URL, with no
    /// extra headers and an empty body.
    #[verifier::rlimit(100)]
    pub fn request(&self) -> (r: Request)
        ensures
            r.method == Method::Get,
            r.url@ == self.spec_url(),
            r.headers@.len() == 0,
            r.body@.len() == 0,
    {
        let mut url = self.client.endpoint.clone();
        append_path_segment(&mut url, self.organization.as_str());
        append_path_segment(&mut url, self.project.as_str());
        url.append("/_apis/packaging/Feeds");
        append_path_segment(&mut url, self.feed_id.as_str());
        url.append("/packages");
        append_api_version(&mut url);
        if let Some(v) = &self.protocol_type {
            append_query_pair(&mut url, false, "protocolType", v.as_str());
        }
        if let Some(v) = &self.package_name_query {
            append_query_pair(&mut url, false, "packageNameQuery", v.as_str());
        }
        if let Some(v) = &self.normalized_package_name {
            append_query_pair(&mut url, false, "normalizedPackageName", v.as_str());
        }
        if let Some(v) = self.include_urls {
            append_query_pair_bool(&mut url, false, "includeUrls", v);
        }
        if let Some(v) = self.include_all_versions {
            append_query_pair_bool(&mut url, false, "includeAllVersions", v);
        }
        if let Some(v) = self.is_listed {
            append_query_pair_bool(&mut url, false, "isListed", v);
        }
        if let Some(v) = self.get_top_package_versions {
            append_query_pair_bool(&mut url, false, "getTopPackageVersions", v);
        }
        if let Some(v) = self.is_release {
            append_query_pair_bool(&mut url, false, "isRelease", v);
        }
        if let Some(v) = self.include_description {
            append_query_pair_bool(&mut url, false, "includeDescription", v);
        }
        if let Some(v) = self.top {
            append_query_pair_i64(&mut url, false, "$top", v as i64);
        }
        if let Some(v) = self.skip {
            append_query_pair_i64(&mut url, false, "$skip", v as i64);
        }
        if let Some(v) = self.include_deleted {
            append_query_pair_bool(&mut url, false, "includeDeleted", v);
        }
        if let Some(v) = self.is_cached {
            append_query_pair_bool(&mut url, false, "isCached", v);
        }
        if let Some(v) = &self.direct_upstream_id {
            append_query_pair(&mut url, false, "directUpstreamId", v.as_str());
        }
        proof {
            assert(url@ =~= self.spec_url());
        }
        Request { method: Method::Get, url, headers: Vec::new(), body: Vec::new() }
    }
}

} // verus!
