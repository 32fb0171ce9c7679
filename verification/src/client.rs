//! The service client and its builder: the endpoint, the token scopes, and
//! the retry strategy every operation inherits.

use vstd::prelude::*;
use vstd::string::*;
use crate::retry::RetryOptions;

verus! {

/// The default service endpoint.
pub fn default_endpoint() -> (r: &'static str)
    ensures
        r@ == "https://feeds.dev.azure.com"@,
{
    "https://feeds.dev.azure.com"
}

/// A configured client: the endpoint operations build their URLs from, the
/// scopes the embedding application requests tokens for, and the retry
/// strategy it drives the send loop with.
pub struct Client {
    pub endpoint: String,
    pub scopes: Vec<String>,
    pub retry: RetryOptions,
}

/// Clones a list of scopes.
fn clone_strings(v: &Vec<String>) -> (r: Vec<String>)
    ensures
        r@ == v@,
{
    let mut r: Vec<String> = Vec::new();
    let mut i: usize = 0;
    while i < v.len()
        invariant
            i <= v@.len(),
            r@ == v@.take(i as int),
        decreases v@.len() - i,
    {
        r.push(v[i].clone());
        proof {
            assert(r@ =~= v@.take(i + 1));
        }
        i = i + 1;
    }
    proof {
        assert(v@.take(v@.len() as int) =~= v@);
    }
    r
}

impl Clone for Client {
    /// A copy that keeps the endpoint, scopes and retry strategy.
    fn clone(&self) -> (r: Self)
        ensures
            r.endpoint == self.endpoint,
            r.scopes@ == self.scopes@,
            r.retry == self.retry,
    {
        Client {
            endpoint: self.endpoint.clone(),
            scopes: clone_strings(&self.scopes),
            retry: self.retry,
        }
    }
}

impl Client {
    /// A client for the given endpoint, scopes and retry strategy.
    pub fn new(endpoint: String, scopes: Vec<String>, retry: RetryOptions) -> (r: Self)
        ensures
            r.endpoint == endpoint,
            r.scopes == scopes,
            r.retry == retry,
    {
        Client { endpoint, scopes, retry }
    }

    /// A fresh builder.
    pub fn builder() -> (r: ClientBuilder)
        ensures
            r.endpoint is None,
            r.scopes is None,
            r.retry is None,
    {
        ClientBuilder::new()
    }

    /// The endpoint operations build their URLs from.
    pub fn endpoint(&self) -> (r: &String)
        ensures
            r == self.endpoint,
    {
        &self.endpoint
    }

    /// The scopes the embedding application requests tokens for.
    pub fn scopes(&self) -> (r: &Vec<String>)
        ensures
            r == self.scopes,
    {
        &self.scopes
    }

    /// The package and package-version operations.
    pub fn artifact_details_client(&self) -> (r: crate::artifact_details::Client)
        ensures
            r.0.endpoint == self.endpoint,
            r.0.scopes@ == self.scopes@,
            r.0.retry == self.retry,
    {
        crate::artifact_details::Client(self.clone())
    }

    /// The feed and package change-tracking operations.
    pub fn change_tracking_client(&self) -> (r: crate::change_tracking::Client)
        ensures
            r.0.endpoint == self.endpoint,
            r.0.scopes@ == self.scopes@,
            r.0.retry == self.retry,
    {
        crate::change_tracking::Client(self.clone())
    }

    /// The feed, view and permission operations.
    pub fn feed_management_client(&self) -> (r: crate::feed_management::Client)
        ensures
            r.0.endpoint == self.endpoint,
            r.0.scopes@ == self.scopes@,
            r.0.retry == self.retry,
    {
        crate::feed_management::Client(self.clone())
    }

    /// The operations on feeds in the recycle bin.
    pub fn feed_recycle_bin_client(&self) -> (r: crate::feed_recycle_bin::Client)
        ensures
            r.0.endpoint == self.endpoint,
            r.0.scopes@ == self.scopes@,
            r.0.retry == self.retry,
    {
        crate::feed_recycle_bin::Client(self.clone())
    }

    /// The package provenance operations.
    pub fn provenance_client(&self) -> (r: crate::provenance::Client)
        ensures
            r.0.endpoint == self.endpoint,
            r.0.scopes@ == self.scopes@,
            r.0.retry == self.retry,
    {
        crate::provenance::Client(self.clone())
    }

    /// The operations on packages in the recycle bin.
    pub fn recycle_bin_client(&self) -> (r: crate::recycle_bin::Client)
        ensures
            r.0.endpoint == self.endpoint,
            r.0.scopes@ == self.scopes@,
            r.0.retry == self.retry,
    {
        crate::recycle_bin::Client(self.clone())
    }

    /// The feed retention-policy operations.
    pub fn retention_policies_client(&self) -> (r: crate::retention_policies::Client)
        ensures
            r.0.endpoint == self.endpoint,
            r.0.scopes@ == self.scopes@,
            r.0.retry == self.retry,
    {
        crate::retention_policies::Client(self.clone())
    }

    /// The service-wide permission operations.
    pub fn service_settings_client(&self) -> (r: crate::service_settings::Client)
        ensures
            r.0.endpoint == self.endpoint,
            r.0.scopes@ == self.scopes@,
            r.0.retry == self.retry,
    {
        crate::service_settings::Client(self.clone())
    }
}

/// Collects a client's settings; every unset one falls back to its default
/// at `build`.
pub struct ClientBuilder {
    pub endpoint: Option<String>,
    pub scopes: Option<Vec<String>>,
    pub retry: Option<RetryOptions>,
}

impl ClientBuilder {
    /// A builder with nothing set.
    pub fn new() -> (r: Self)
        ensures
            r.endpoint is None,
            r.scopes is None,
            r.retry is None,
    {
        ClientBuilder { endpoint: None, scopes: None, retry: None }
    }

    /// Sets the endpoint.
    pub fn endpoint(self, endpoint: String) -> (r: Self)
        ensures
            r == (ClientBuilder { endpoint: Some(endpoint), ..self }),
    {
        ClientBuilder { endpoint: Some(endpoint), ..self }
    }

    /// Sets the scopes.
    pub fn scopes(self, scopes: Vec<String>) -> (r: Self)
        ensures
            r == (ClientBuilder { scopes: Some(scopes), ..self }),
    {
        ClientBuilder { scopes: Some(scopes), ..self }
    }

    /// Sets the retry strategy.
    pub fn retry(self, retry: RetryOptions) -> (r: Self)
        ensures
            r == (ClientBuilder { retry: Some(retry), ..self }),
    {
        ClientBuilder { retry: Some(retry), ..self }
    }

    /// The finished client. A missing endpoint falls back to the default
    /// one, missing scopes to the single scope `<endpoint>/`, and a missing
    /// retry strategy to exponential backoff.
    pub fn build(self) -> (r: Client)
        ensures
            match self.endpoint {
                Some(e) => r.endpoint == e,
                None => r.endpoint@ == "https://feeds.dev.azure.com"@,
            },
            match self.scopes {
                Some(s) => r.scopes == s,
                None => r.scopes@.len() == 1 && r.scopes@[0]@ == r.endpoint@ + seq!['/'],
            },
            match self.retry {
                Some(o) => r.retry == o,
                None => r.retry == (RetryOptions {
                    mode: crate::retry::RetryMode::Exponential,
                    initial_delay_ms: 200,
                    max_retries: 8,
                    max_total_elapsed_ms: 60000,
                    max_delay_ms: 30000,
                }),
            },
    {
        let endpoint: String = match self.endpoint {
            Some(e) => e,
            None => String::from_str(default_endpoint()),
        };
        let scopes: Vec<String> = match self.scopes {
            Some(s) => s,
            None => {
                let mut scope = endpoint.clone();
                crate::encode::push_char(&mut scope, '/');
                let mut v: Vec<String> = Vec::new();
                v.push(scope);
                proof {
                    assert(v@[0]@ =~= endpoint@ + seq!['/']);
                }
                v
            },
        };
        let retry: RetryOptions = match self.retry {
            Some(o) => o,
            None => RetryOptions::exponential(),
        };
        Client { endpoint, scopes, retry }
    }
}

} // verus!
