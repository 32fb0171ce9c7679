//! Builds the `restore_deleted_feed` request of the `feed_recycle_bin` group. The embedding
//! application adds the authorization header at send time.

use vstd::prelude::*;
use vstd::string::*;
use crate::client::Client;
use crate::http::Method;
use crate::http::Request;
use crate::http::clone_bytes;
use crate::http::is_json_patch_headers;
use crate::http::json_patch_content_headers;
use crate::urlbuild::api_version_chars;
use crate::urlbuild::append_api_version;
use crate::urlbuild::append_path_segment;
use crate::urlbuild::query_pair;

verus! {

/// Collects the operation's parameters.
pub struct Builder {
    pub client: Client,
    pub organization: String,
    /// The restore instructions, as a JSON patch document.
    pub body: Vec<u8>,
    pub feed_id: String,
    pub project: String,
}

impl Builder {
    /// The URL the request goes to.
    pub open spec fn spec_url(self) -> Seq<char> {
        self.client.endpoint@
            + seq!['/']
            + self.organization@
            + seq!['/']
            + self.project@
            + "/_apis/packaging/feedrecyclebin"@
            + seq!['/']
            + self.feed_id@
            + query_pair(
                    true,
                    "api-version"@,
                    api_version_chars(),
                )
    }

    /// The finished request: a PATCH of the operation's URL carrying the
    /// JSON patch body under its own media type.
    pub fn request(&self) -> (r: Request)
        ensures
            r.method == Method::Patch,
            r.url@ == self.spec_url(),
            is_json_patch_headers(r.headers@),
            r.body@ == self.body@,
    {
        let mut url = self.client.endpoint.clone();
        append_path_segment(&mut url, self.organization.as_str());
        append_path_segment(&mut url, self.project.as_str());
        url.append("/_apis/packaging/feedrecyclebin");
        append_path_segment(&mut url, self.feed_id.as_str());
        append_api_version(&mut url);
        proof {
            assert(url@ =~= self.spec_url());
        }
        Request {
            method: Method::Patch,
            url,
            headers: json_patch_content_headers(),
            body: clone_bytes(&self.body),
        }
    }
}

} // verus!
