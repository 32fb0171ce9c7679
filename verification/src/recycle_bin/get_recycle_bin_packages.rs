//! Builds the `get_recycle_bin_packages` request of the `recycle_bin` group. The embedding
//! application adds the authorization header at send time.

use vstd::prelude::*;
use vstd::string::*;
use crate::client::Client;
use crate::encode::bool_chars;
use crate::encode::dec_of_i64;
use crate::encode::form_encoded;
use crate::http::Method;
use crate::http::Request;
use crate::urlbuild::api_version_chars;
use crate::urlbuild::append_api_version;
use crate::urlbuild::append_path_segment;
use crate::urlbuild::append_query_pair;
use crate::urlbuild::append_query_pair_bool;
use crate::urlbuild::append_query_pair_i64;
use crate::urlbuild::query_pair;

verus! {

/// Collects the operation's parameters.
pub struct Builder {
    pub client: Client,
    pub organization: String,
    pub feed_id: String,
    pub project: String,
    pub protocol_type: Option<String>,
    pub package_name_query: Option<String>,
    pub include_urls: Option<bool>,
    pub top: Option<i32>,
    pub skip: Option<i32>,
    pub include_all_versions: Option<bool>,
}

impl Builder {
    /// Type of package (e.g. NuGet, npm, ...).
    pub fn protocol_type(self, protocol_type: String) -> (r: Self)
        ensures
            r == (Builder { protocol_type: Some(protocol_type), ..self }),
    {
        Builder { protocol_type: Some(protocol_type), ..self }
    }

    /// Filter to packages matching this name.
    pub fn package_name_query(self, package_name_query: String) -> (r: Self)
        ensures
            r == (Builder { package_name_query: Some(package_name_query), ..self }),
    {
        Builder { package_name_query: Some(package_name_query), ..self }
    }

    /// Set to true to return REST Urls with the response.  Default is True.
    pub fn include_urls(self, include_urls: bool) -> (r: Self)
        ensures
            r == (Builder { include_urls: Some(include_urls), ..self }),
    {
        Builder { include_urls: Some(include_urls), ..self }
    }

    /// Get the top N packages.
    pub fn top(self, top: i32) -> (r: Self)
        ensures
            r == (Builder { top: Some(top), ..self }),
    {
        Builder { top: Some(top), ..self }
    }

    /// Skip the first N packages.
    pub fn skip(self, skip: i32) -> (r: Self)
        ensures
            r == (Builder { skip: Some(skip), ..self }),
    {
        Builder { skip: Some(skip), ..self }
    }

    /// Set to true to return all versions of the package in the response.  Default is false (latest version only).
    pub fn include_all_versions(self, include_all_versions: bool) -> (r: Self)
        ensures
            r == (Builder { include_all_versions: Some(include_all_versions), ..self }),
    {
        Builder { include_all_versions: Some(include_all_versions), ..self }
    }

    /// The URL the request goes to.
    pub open spec fn spec_url(self) -> Seq<char> {
        self.client.endpoint@
            + seq!['/']
            + self.organization@
            + seq!['/']
            + self.project@
            + "/_apis/packaging/Feeds"@
            + seq!['/']
            + self.feed_id@
            + "/RecycleBin/Packages"@
            + query_pair(
                    true,
                    "api-version"@,
                    api_version_chars(),
                )
            + (match self.protocol_type {
                    Some(v) => query_pair(false, "protocolType"@, form_encoded(v@)),
                    None => Seq::<char>::empty(),
                })
            + (match self.package_name_query {
                    Some(v) => query_pair(false, "packageNameQuery"@, form_encoded(v@)),
                    None => Seq::<char>::empty(),
                })
            + (match self.include_urls {
                    Some(v) => query_pair(false, "includeUrls"@, bool_chars(v)),
                    None => Seq::<char>::empty(),
                })
            + (match self.top {
                    Some(v) => query_pair(false, "$top"@, dec_of_i64(v as int)),
                    None => Seq::<char>::empty(),
                })
            + (match self.skip {
                    Some(v) => query_pair(false, "$skip"@, dec_of_i64(v as int)),
                    None => Seq::<char>::empty(),
                })
            + (match self.include_all_versions {
                    Some(v) => query_pair(false, "includeAllVersions"@, bool_chars(v)),
                    None => Seq::<char>::empty(),
                })
    }

    /// The finished request: a GET of the operation's URL, with no
    /// extra headers and an empty body.
    pub fn request(&self) -> (r: Request)
        ensures
            r.method == Method::Get,
            r.url@ == self.spec_url(),
            r.headers@.len() == 0,
            r.body@.len() == 0,
    {
        let mut url = self.client.endpoint.clone();
        append_path_segment(&mut url, self.organization.as_str());
        append_path_segment(&mut url, self.project.as_str());
        url.append("/_apis/packaging/Feeds");
        append_path_segment(&mut url, self.feed_id.as_str());
        url.append("/RecycleBin/Packages");
        append_api_version(&mut url);
        if let Some(v) = &self.protocol_type {
            append_query_pair(&mut url, false, "protocolType", v.as_str());
        }
        if let Some(v) = &self.package_name_query {
            append_query_pair(&mut url, false, "packageNameQuery", v.as_str());
        }
        if let Some(v) = self.include_urls {
            append_query_pair_bool(&mut url, false, "includeUrls", v);
        }
        if let Some(v) = self.top {
            append_query_pair_i64(&mut url, false, "$top", v as i64);
        }
        if let Some(v) = self.skip {
            append_query_pair_i64(&mut url, false, "$skip", v as i64);
        }
        if let Some(v) = self.include_all_versions {
            append_query_pair_bool(&mut url, false, "includeAllVersions", v);
        }
        proof {
            assert(url@ =~= self.spec_url());
        }
        Request { method: Method::Get, url, headers: Vec::new(), body: Vec::new() }
    }
}

} // verus!
