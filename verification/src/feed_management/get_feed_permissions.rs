//! Builds the `get_feed_permissions` request of the `feed_management` group. The embedding
//! application adds the authorization header at send time.

use vstd::prelude::*;
use vstd::string::*;
use crate::client::Client;
use crate::encode::bool_chars;
use crate::encode::form_encoded;
use crate::http::Method;
use crate::http::Request;
use crate::urlbuild::api_version_chars;
use crate::urlbuild::append_api_version;
use crate::urlbuild::append_path_segment;
use crate::urlbuild::append_query_pair;
use crate::urlbuild::append_query_pair_bool;
use crate::urlbuild::query_pair;

verus! {

/// Collects the operation's parameters.
pub struct Builder {
    pub client: Client,
    pub organization: String,
    pub feed_id: String,
    pub project: String,
    pub include_ids: Option<bool>,
    pub exclude_inherited_permissions: Option<bool>,
    pub identity_descriptor: Option<String>,
    pub include_deleted_feeds: Option<bool>,
}

impl Builder {
    /// Set to true to include user Ids in the response.  Default is false.
    pub fn include_ids(self, include_ids: bool) -> (r: Self)
        ensures
            r == (Builder { include_ids: Some(include_ids), ..self }),
    {
        Builder { include_ids: Some(include_ids), ..self }
    }

    /// Set to true to only return explicitly set permissions on the feed.  Default is false.
    pub fn exclude_inherited_permissions(self, exclude_inherited_permissions: bool) -> (r: Self)
        ensures
            r == (Builder { exclude_inherited_permissions: Some(exclude_inherited_permissions), ..self }),
    {
        Builder { exclude_inherited_permissions: Some(exclude_inherited_permissions), ..self }
    }

    /// Filter permissions to the provided identity.
    pub fn identity_descriptor(self, identity_descriptor: String) -> (r: Self)
        ensures
            r == (Builder { identity_descriptor: Some(identity_descriptor), ..self }),
    {
        Builder { identity_descriptor: Some(identity_descriptor), ..self }
    }

    /// If includeDeletedFeeds is true, then feedId must be specified by name and not by Guid.
    pub fn include_deleted_feeds(self, include_deleted_feeds: bool) -> (r: Self)
        ensures
            r == (Builder { include_deleted_feeds: Some(include_deleted_feeds), ..self }),
    {
        Builder { include_deleted_feeds: Some(include_deleted_feeds), ..self }
    }

    /// The URL the request goes to.
    pub open spec fn spec_url(self) -> Seq<char> {
        self.client.endpoint@
            + seq!['/']
            + self.organization@
            + seq!['/']
            + self.project@
            + "/_apis/packaging/Feeds"@
            + seq!['/']
            + self.feed_id@
            + "/permissions"@
            + query_pair(
                    true,
                    "api-version"@,
                    api_version_chars(),
                )
            + (match self.include_ids {
                    Some(v) => query_pair(false, "includeIds"@, bool_chars(v)),
                    None => Seq::<char>::empty(),
                })
            + (match self.exclude_inherited_permissions {
                    Some(v) => query_pair(false, "excludeInheritedPermissions"@, bool_chars(v)),
                    None => Seq::<char>::empty(),
                })
            + (match self.identity_descriptor {
                    Some(v) => query_pair(false, "identityDescriptor"@, form_encoded(v@)),
                    None => Seq::<char>::empty(),
                })
            + (match self.include_deleted_feeds {
                    Some(v) => query_pair(false, "includeDeletedFeeds"@, bool_chars(v)),
                    None => Seq::<char>::empty(),
                })
    }

    /// The finished request: a GET of the operation's URL, with no
    /// extra headers and an empty body.
    pub fn request(&self) -> (r: Request)
        ensures
            r.method == Method::Get,
            r.url@ == self.spec_url(),
            r.headers@.len() == 0,
            r.body@.len() == 0,
    {
        let mut url = self.client.endpoint.clone();
        append_path_segment(&mut url, self.organization.as_str());
        append_path_segment(&mut url, self.project.as_str());
        url.append("/_apis/packaging/Feeds");
        append_path_segment(&mut url, self.feed_id.as_str());
        url.append("/permissions");
        append_api_version(&mut url);
        if let Some(v) = self.include_ids {
            append_query_pair_bool(&mut url, false, "includeIds", v);
        }
        if let Some(v) = self.exclude_inherited_permissions {
            append_query_pair_bool(&mut url, false, "excludeInheritedPermissions", v);
        }
        if let Some(v) = &self.identity_descriptor {
            append_query_pair(&mut url, false, "identityDescriptor", v.as_str());
        }
        if let Some(v) = self.include_deleted_feeds {
            append_query_pair_bool(&mut url, false, "includeDeletedFeeds", v);
        }
        proof {
            assert(url@ =~= self.spec_url());
        }
        Request { method: Method::Get, url, headers: Vec::new(), body: Vec::new() }
    }
}

} // verus!
