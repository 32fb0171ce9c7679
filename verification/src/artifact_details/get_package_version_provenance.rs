//! Builds the `get_package_version_provenance` request of the `artifact_details` group. The embedding
//! application adds the authorization header at send time.

use vstd::prelude::*;
use vstd::string::*;
use crate::client::Client;
use crate::http::Method;
use crate::http::Request;
use crate::urlbuild::api_version_chars;
use crate::urlbuild::append_api_version;
use crate::urlbuild::append_path_segment;
use crate::urlbuild::query_pair;

verus! {

/// Collects the operation's parameters.
pub struct Builder {
    pub client: Client,
    pub organization: String,
    pub feed_id: String,
    pub package_id: String,
    pub package_version_id: String,
    pub project: String,
}

impl Builder {
    /// The URL the request goes to.
    pub open spec fn spec_url(self) -> Seq<char> {
        self.client.endpoint@
            + seq!['/']
            + self.organization@
            + seq!['/']
            + self.project@
            + "/_apis/packaging/Feeds"@
            + seq!['/']
            + self.feed_id@
            + "/Packages"@
            + seq!['/']
            + self.package_id@
            + "/Versions"@
            + seq!['/']
            + self.package_version_id@
            + "/provenance"@
            + query_pair(
                    true,
                    "api-version"@,
                    api_version_chars(),
                )
    }

    /// The finished request: a GET of the operation's URL, with no
    /// extra headers and an empty body.
    pub fn request(&self) -> (r: Request)
        ensures
            r.method == Method::Get,
            r.url@ == self.spec_url(),
            r.headers@.len() == 0,
            r.body@.len() == 0,
    {
        let mut url = self.client.endpoint.clone();
        append_path_segment(&mut url, self.organization.as_str());
        append_path_segment(&mut url, self.project.as_str());
        url.append("/_apis/packaging/Feeds");
        append_path_segment(&mut url, self.feed_id.as_str());
        url.append("/Packages");
        append_path_segment(&mut url, self.package_id.as_str());
        url.append("/Versions");
        append_path_segment(&mut url, self.package_version_id.as_str());
        url.append("/provenance");
        append_api_version(&mut url);
        proof {
            assert(url@ =~= self.spec_url());
        }
        Request { method: Method::Get, url, headers: Vec::new(), body: Vec::new() }
    }
}

} // verus!
