//! Builds the `get_feeds` request of the `feed_management` group. The embedding
//! application adds the authorization header at send time.

use vstd::prelude::*;
use vstd::string::*;
use crate::client::Client;
use crate::encode::bool_chars;
use crate::encode::form_encoded;
use crate::http::Method;
use crate::http::Request;
use crate::urlbuild::api_version_chars;
use crate::urlbuild::append_api_version;
use crate::urlbuild::append_path_segment;
use crate::urlbuild::append_query_pair;
use crate::urlbuild::append_query_pair_bool;
use crate::urlbuild::query_pair;

verus! {

/// Collects the operation's parameters.
pub struct Builder {
    pub client: Client,
    pub organization: String,
    pub project: String,
    pub feed_role: Option<String>,
    pub include_deleted_upstreams: Option<bool>,
    pub include_urls: Option<bool>,
}

impl Builder {
    /// Filter by this role, either Administrator(4), Contributor(3), or Reader(2) level permissions.
    pub fn feed_role(self, feed_role: String) -> (r: Self)
        ensures
            r == (Builder { feed_role: Some(feed_role), ..self }),
    {
        Builder { feed_role: Some(feed_role), ..self }
    }

    /// Include upstreams that have been deleted in the response.
    pub fn include_deleted_upstreams(self, include_deleted_upstreams: bool) -> (r: Self)
        ensures
            r == (Builder { include_deleted_upstreams: Some(include_deleted_upstreams), ..self }),
    {
        Builder { include_deleted_upstreams: Some(include_deleted_upstreams), ..self }
    }

    /// Resolve names if true
    pub fn include_urls(self, include_urls: bool) -> (r: Self)
        ensures
            r == (Builder { include_urls: Some(include_urls), ..self }),
    {
        Builder { include_urls: Some(include_urls), ..self }
    }

    /// The URL the request goes to.
    pub open spec fn spec_url(self) -> Seq<char> {
        self.client.endpoint@
            + seq!['/']
            + self.organization@
            + seq!['/']
            + self.project@
            + "/_apis/packaging/feeds"@
            + query_pair(
                    true,
                    "api-version"@,
                    api_version_chars(),
                )
            + (match self.feed_role {
                    Some(v) => query_pair(false, "feedRole"@, form_encoded(v@)),
                    None => Seq::<char>::empty(),
                })
            + (match self.include_deleted_upstreams {
                    Some(v) => query_pair(false, "includeDeletedUpstreams"@, bool_chars(v)),
                    None => Seq::<char>::empty(),
                })
            + (match self.include_urls {
                    Some(v) => query_pair(false, "includeUrls"@, bool_chars(v)),
                    None => Seq::<char>::empty(),
                })
    }

    /// The finished request: a GET of the operation's URL, with no
    /// extra headers and an empty body.
    pub fn request(&self) -> (r: Request)
        ensures
            r.method == Method::Get,
            r.url@ == self.spec_url(),
            r.headers@.len() == 0,
            r.body@.len() == 0,
    {
        let mut url = self.client.endpoint.clone();
        append_path_segment(&mut url, self.organization.as_str());
        append_path_segment(&mut url, self.project.as_str());
        url.append("/_apis/packaging/feeds");
        append_api_version(&mut url);
        if let Some(v) = &self.feed_role {
            append_query_pair(&mut url, false, "feedRole", v.as_str());
        }
        if let Some(v) = self.include_deleted_upstreams {
            append_query_pair_bool(&mut url, false, "includeDeletedUpstreams", v);
        }
        if let Some(v) = self.include_urls {
            append_query_pair_bool(&mut url, false, "includeUrls", v);
        }
        proof {
            assert(url@ =~= self.spec_url());
        }
        Request { method: Method::Get, url, headers: Vec::new(), body: Vec::new() }
    }
}

} // verus!
