//! Builds the `get_package_changes` request of the `change_tracking` group. The embedding
//! application adds the authorization header at send time.

use vstd::prelude::*;
use vstd::string::*;
use crate::client::Client;
use crate::encode::dec_of_i64;
use crate::http::Method;
use crate::http::Request;
use crate::urlbuild::api_version_chars;
use crate::urlbuild::append_api_version;
use crate::urlbuild::append_path_segment;
use crate::urlbuild::append_query_pair_i64;
use crate::urlbuild::query_pair;

verus! {

/// Collects the operation's parameters.
pub struct Builder {
    pub client: Client,
    pub organization: String,
    pub feed_id: String,
    pub project: String,
    pub continuation_token: Option<i64>,
    pub batch_size: Option<i32>,
}

impl Builder {
    /// A continuation token which acts as a bookmark to a previously retrieved change. This token allows the user to continue retrieving changes in batches, picking up where the previous batch left off. If specified, all the changes that occur strictly after the token will be returned. If not specified or 0, iteration will start with the first change.
    pub fn continuation_token(self, continuation_token: i64) -> (r: Self)
        ensures
            r == (Builder { continuation_token: Some(continuation_token), ..self }),
    {
        Builder { continuation_token: Some(continuation_token), ..self }
    }

    /// Number of package changes to fetch. The default value is 1000. The maximum value is 2000.
    pub fn batch_size(self, batch_size: i32) -> (r: Self)
        ensures
            r == (Builder { batch_size: Some(batch_size), ..self }),
    {
        Builder { batch_size: Some(batch_size), ..self }
    }

    /// The URL the request goes to.
    pub open spec fn spec_url(self) -> Seq<char> {
        self.client.endpoint@
            + seq!['/']
            + self.organization@
            + seq!['/']
            + self.project@
            + "/_apis/packaging/Feeds"@
            + seq!['/']
            + self.feed_id@
            + "/packagechanges"@
            + query_pair(
                    true,
                    "api-version"@,
                    api_version_chars(),
                )
            + (match self.continuation_token {
                    Some(v) => query_pair(false, "continuationToken"@, dec_of_i64(v as int)),
                    None => Seq::<char>::empty(),
                })
            + (match self.batch_size {
                    Some(v) => query_pair(false, "batchSize"@, dec_of_i64(v as int)),
                    None => Seq::<char>::empty(),
                })
    }

    /// The finished request: a GET of the operation's URL, with no
    /// extra headers and an empty body.
    pub fn request(&self) -> (r: Request)
        ensures
            r.method == Method::Get,
            r.url@ == self.spec_url(),
            r.headers@.len() == 0,
            r.body@.len() == 0,
    {
        let mut url = self.client.endpoint.clone();
        append_path_segment(&mut url, self.organization.as_str());
        append_path_segment(&mut url, self.project.as_str());
        url.append("/_apis/packaging/Feeds");
        append_path_segment(&mut url, self.feed_id.as_str());
        url.append("/packagechanges");
        append_api_version(&mut url);
        if let Some(v) = self.continuation_token {
            append_query_pair_i64(&mut url, false, "continuationToken", v);
        }
        if let Some(v) = self.batch_size {
            append_query_pair_i64(&mut url, false, "batchSize", v as i64);
        }
        proof {
            assert(url@ =~= self.spec_url());
        }
        Request { method: Method::Get, url, headers: Vec::new(), body: Vec::new() }
    }
}

} // verus!
