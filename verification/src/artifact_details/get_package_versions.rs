//! Builds the `get_package_versions` request of the `artifact_details` group. The embedding
//! application adds the authorization header at send time.

use vstd::prelude::*;
use vstd::string::*;
use crate::client::Client;
use crate::encode::bool_chars;
use crate::http::Method;
use crate::http::Request;
use crate::urlbuild::api_version_chars;
use crate::urlbuild::append_api_version;
use crate::urlbuild::append_path_segment;
use crate::urlbuild::append_query_pair_bool;
use crate::urlbuild::query_pair;

verus! {

/// Collects the operation's parameters.
pub struct Builder {
    pub client: Client,
    pub organization: String,
    pub feed_id: String,
    pub package_id: String,
    pub project: String,
    pub include_urls: Option<bool>,
    pub is_listed: Option<bool>,
    pub is_deleted: Option<bool>,
}

impl Builder {
    /// Set to true to include urls for each version. Default is true.
    pub fn include_urls(self, include_urls: bool) -> (r: Self)
        ensures
            r == (Builder { include_urls: Some(include_urls), ..self }),
    {
        Builder { include_urls: Some(include_urls), ..self }
    }

    /// Only applicable for NuGet packages. If false, delisted package versions will be returned.
    pub fn is_listed(self, is_listed: bool) -> (r: Self)
        ensures
            r == (Builder { is_listed: Some(is_listed), ..self }),
    {
        Builder { is_listed: Some(is_listed), ..self }
    }

    /// If set specifies whether to return only deleted or non-deleted versions of packages in the response. Default is unset (return all versions).
    pub fn is_deleted(self, is_deleted: bool) -> (r: Self)
        ensures
            r == (Builder { is_deleted: Some(is_deleted), ..self }),
    {
        Builder { is_deleted: Some(is_deleted), ..self }
    }

    /// The URL the request goes to.
    pub open spec fn spec_url(self) -> Seq<char> {
        self.client.endpoint@
            + seq!['/']
            + self.organization@
            + seq!['/']
            + self.project@
            + "/_apis/packaging/Feeds"@
            + seq!['/']
            + self.feed_id@
            + "/Packages"@
            + seq!['/']
            + self.package_id@
            + "/versions"@
            + query_pair(
                    true,
                    "api-version"@,
                    api_version_chars(),
                )
            + (match self.include_urls {
                    Some(v) => query_pair(false, "includeUrls"@, bool_chars(v)),
                    None => Seq::<char>::empty(),
                })
            + (match self.is_listed {
                    Some(v) => query_pair(false, "isListed"@, bool_chars(v)),
                    None => Seq::<char>::empty(),
                })
            + (match self.is_deleted {
                    Some(v) => query_pair(false, "isDeleted"@, bool_chars(v)),
                    None => Seq::<char>::empty(),
                })
    }

    /// The finished request: a GET of the operation's URL, with no
    /// extra headers and an empty body.
    pub fn request(&self) -> (r: Request)
        ensures
            r.method == Method::Get,
            r.url@ == self.spec_url(),
            r.headers@.len() == 0,
            r.body@.len() == 0,
    {
        let mut url = self.client.endpoint.clone();
        append_path_segment(&mut url, self.organization.as_str());
        append_path_segment(&mut url, self.project.as_str());
        url.append("/_apis/packaging/Feeds");
        append_path_segment(&mut url, self.feed_id.as_str());
        url.append("/Packages");
        append_path_segment(&mut url, self.package_id.as_str());
        url.append("/versions");
        append_api_version(&mut url);
        if let Some(v) = self.include_urls {
            append_query_pair_bool(&mut url, false, "includeUrls", v);
        }
        if let Some(v) = self.is_listed {
            append_query_pair_bool(&mut url, false, "isListed", v);
        }
        if let Some(v) = self.is_deleted {
            append_query_pair_bool(&mut url, false, "isDeleted", v);
        }
        proof {
            assert(url@ =~= self.spec_url());
        }
        Request { method: Method::Get, url, headers: Vec::new(), body: Vec::new() }
    }
}

} // verus!
