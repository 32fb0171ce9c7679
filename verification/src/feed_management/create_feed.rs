//! Builds the `create_feed` request of the `feed_management` group. The embedding
//! application adds the authorization header at send time.

use vstd::prelude::*;
use vstd::string::*;
use crate::client::Client;
use crate::http::Method;
use crate::http::Request;
use crate::http::clone_bytes;
use crate::http::is_json_headers;
use crate::http::json_content_headers;
use crate::urlbuild::api_version_chars;
use crate::urlbuild::append_api_version;
use crate::urlbuild::append_path_segment;
use crate::urlbuild::query_pair;

verus! {

/// Collects the operation's parameters.
pub struct Builder {
    pub client: Client,
    pub organization: String,
    /// The request payload, as JSON text.
    pub body: Vec<u8>,
    pub project: String,
}

impl Builder {
    /// The URL the request goes to.
    pub open spec fn spec_url(self) -> Seq<char> {
        self.client.endpoint@
            + seq!['/']
            + self.organization@
            + seq!['/']
            + self.project@
            + "/_apis/packaging/feeds"@
            + query_pair(
                    true,
                    "api-version"@,
                    api_version_chars(),
                )
    }

    /// The finished request: a POST of the operation's URL carrying
    /// the JSON body.
    pub fn request(&self) -> (r: Request)
        ensures
            r.method == Method::Post,
            r.url@ == self.spec_url(),
            is_json_headers(r.headers@),
            r.body@ == self.body@,
    {
        let mut url = self.client.endpoint.clone();
        append_path_segment(&mut url, self.organization.as_str());
        append_path_segment(&mut url, self.project.as_str());
        url.append("/_apis/packaging/feeds");
        append_api_version(&mut url);
        proof {
            assert(url@ =~= self.spec_url());
        }
        Request {
            method: Method::Post,
            url,
            headers: json_content_headers(),
            body: clone_bytes(&self.body),
        }
    }
}

} // verus!
