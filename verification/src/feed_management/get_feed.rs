//! Builds the `get_feed` request of the `feed_management` group. The embedding
//! application adds the authorization header at send time.

use vstd::prelude::*;
use vstd::string::*;
use crate::client::Client;
use crate::encode::bool_chars;
use crate::http::Method;
use crate::http::Request;
use crate::urlbuild::api_version_chars;
use crate::urlbuild::append_api_version;
use crate::urlbuild::append_path_segment;
use crate::urlbuild::append_query_pair_bool;
use crate::urlbuild::query_pair;

verus! {

/// Collects the operation's parameters.
pub struct Builder {
    pub client: Client,
    pub organization: String,
    pub feed_id: String,
    pub project: String,
    pub include_deleted_upstreams: Option<bool>,
}

impl Builder {
    /// Include upstreams that have been deleted in the response.
    pub fn include_deleted_upstreams(self, include_deleted_upstreams: bool) -> (r: Self)
        ensures
            r == (Builder { include_deleted_upstreams: Some(include_deleted_upstreams), ..self }),
    {
        Builder { include_deleted_upstreams: Some(include_deleted_upstreams), ..self }
    }

    /// The URL the request goes to.
    pub open spec fn spec_url(self) -> Seq<char> {
        self.client.endpoint@
            + seq!['/']
            + self.organization@
            + seq!['/']
            + self.project@
            + "/_apis/packaging/feeds"@
            + seq!['/']
            + self.feed_id@
            + query_pair(
                    true,
                    "api-version"@,
                    api_version_chars(),
                )
            + (match self.include_deleted_upstreams {
                    Some(v) => query_pair(false, "includeDeletedUpstreams"@, bool_chars(v)),
                    None => Seq::<char>::empty(),
                })
    }

    /// The finished request: a GET of the operation's URL, with no
    /// extra headers and an empty body.
    pub fn request(&self) -> (r: Request)
        ensures
            r.method == Method::Get,
            r.url@ == self.spec_url(),
            r.headers@.len() == 0,
            r.body@.len() == 0,
    {
        let mut url = self.client.endpoint.clone();
        append_path_segment(&mut url, self.organization.as_str());
        append_path_segment(&mut url, self.project.as_str());
        url.append("/_apis/packaging/feeds");
        append_path_segment(&mut url, self.feed_id.as_str());
        append_api_version(&mut url);
        if let Some(v) = self.include_deleted_upstreams {
            append_query_pair_bool(&mut url, false, "includeDeletedUpstreams", v);
        }
        proof {
            assert(url@ =~= self.spec_url());
        }
        Request { method: Method::Get, url, headers: Vec::new(), body: Vec::new() }
    }
}

} // verus!
