//! A verified model of the credential provider's token cache.
//!
//! Requests authenticate with a bearer token that the provider fetches over
//! the network and caches until it expires. Concurrent requests must not
//! each fetch: while one refresh is in flight, every other caller waits and
//! reuses its result. The embedding application holds this state behind its
//! lock; the decisions — use the cached token, start a refresh, or wait —
//! are made here.
//!
//! What is proved of every interleaving: a refresh begins only while none
//! is in flight, so between any two `BeginRefresh` decisions the first
//! refresh has completed or failed ([`lemma_single_refresh_in_flight`]) —
//! at most one token-refresh call is ever outstanding.

use vstd::prelude::*;

verus! {

/// A fetched token and when it stops being valid.
pub struct CachedToken {
    pub secret: String,
    pub expires_at_ms: u64,
}

/// What a caller that needs a token must do.
#[derive(PartialEq, Eq, Debug)]
pub enum TokenAction {
    /// The cached token is still valid: use it.
    UseCached(String),
    /// No valid token and no refresh in flight: this caller fetches.
    BeginRefresh,
    /// Another caller is fetching: wait and ask again.
    Await,
}

/// The provider's cache: the last fetched token, and whether a refresh is
/// in flight.
pub struct TokenCache {
    pub cached: Option<CachedToken>,
    pub refreshing: bool,
}

impl TokenCache {
    /// An empty cache.
    pub fn new() -> (r: Self)
        ensures
            r.cached is None,
            !r.refreshing,
    {
        TokenCache { cached: None, refreshing: false }
    }

    /// Whether the cached token may still be used at `now_ms`.
    pub open spec fn spec_has_valid(self, now_ms: u64) -> bool {
        match self.cached {
            Some(t) => now_ms < t.expires_at_ms,
            None => false,
        }
    }

    /// What `acquire` decides and how it leaves the cache.
    pub open spec fn spec_acquire(self, now_ms: u64) -> (TokenCache, TokenAction) {
        if self.refreshing {
            (self, TokenAction::Await)
        } else if self.spec_has_valid(now_ms) {
            (self, TokenAction::UseCached(self.cached->Some_0.secret))
        } else {
            (TokenCache { refreshing: true, ..self }, TokenAction::BeginRefresh)
        }
    }

    /// A caller needs a token at `now_ms`: a still-valid cached token is
    /// reused, otherwise the caller starts the refresh — unless one is
    /// already in flight, in which case it waits.
    pub fn acquire(&mut self, now_ms: u64) -> (a: TokenAction)
        ensures
            (*final(self), a) == old(self).spec_acquire(now_ms),
    {
        if self.refreshing {
            TokenAction::Await
        } else {
            let valid = match &self.cached {
                Some(t) => now_ms < t.expires_at_ms,
                None => false,
            };
            if valid {
                match &self.cached {
                    Some(t) => TokenAction::UseCached(t.secret.clone()),
                    None => {
                        proof {
                            assert(false);
                        }
                        TokenAction::Await
                    },
                }
            } else {
                self.refreshing = true;
                TokenAction::BeginRefresh
            }
        }
    }

    /// The in-flight refresh brought a token.
    pub fn complete_refresh(&mut self, secret: String, expires_at_ms: u64)
        requires
            old(self).refreshing,
        ensures
            *final(self) == (TokenCache {
                cached: Some(CachedToken { secret, expires_at_ms }),
                refreshing: false,
            }),
    {
        self.cached = Some(CachedToken { secret, expires_at_ms });
        self.refreshing = false;
    }

    /// The in-flight refresh failed; the stale token stays.
    pub fn fail_refresh(&mut self)
        requires
            old(self).refreshing,
        ensures
            *final(self) == (TokenCache { refreshing: false, ..*old(self) }),
    {
        self.refreshing = false;
    }
}

/// What one caller did to the cache.
pub enum CacheEvent {
    /// A caller asked for a token at `now_ms`.
    Acquire { now_ms: u64 },
    /// The in-flight refresh brought a token.
    CompleteRefresh { secret: String, expires_at_ms: u64 },
    /// The in-flight refresh failed.
    FailRefresh,
}

/// One recorded transition of the cache.
pub struct CacheStep {
    pub pre: TokenCache,
    pub event: CacheEvent,
    pub post: TokenCache,
    /// The decision handed back, when the event was an `Acquire`.
    pub action: Option<TokenAction>,
}

/// A step the cache itself could have taken.
pub open spec fn cache_step_ok(s: CacheStep) -> bool {
    match s.event {
        CacheEvent::Acquire { now_ms } => {
            match s.action {
                Some(a) => (s.post, a) == s.pre.spec_acquire(now_ms),
                None => false,
            }
        },
        CacheEvent::CompleteRefresh { secret, expires_at_ms } => s.pre.refreshing && s.action
            is None && s.post == (TokenCache {
            cached: Some(CachedToken { secret, expires_at_ms }),
            refreshing: false,
        }),
        CacheEvent::FailRefresh => s.pre.refreshing && s.action is None && s.post == (
        TokenCache { refreshing: false, ..s.pre }),
    }
}

/// An interleaving of callers: every step is one of the cache's
/// transitions, and they chain.
pub open spec fn cache_trace_ok(tr: Seq<CacheStep>) -> bool {
    &&& forall|m: int| 0 <= m < tr.len() ==> cache_step_ok(#[trigger] tr[m])
    &&& forall|m: int| 0 <= m < tr.len() - 1 ==> tr[m].post == tr[m + 1].pre
}

/// Whether a step's decision was to start a refresh.
pub open spec fn begins_refresh(s: CacheStep) -> bool {
    s.action == Some(TokenAction::BeginRefresh)
}

/// Whether a step ended the in-flight refresh.
pub open spec fn ends_refresh(s: CacheStep) -> bool {
    s.event is CompleteRefresh || s.event is FailRefresh
}

proof fn lemma_still_refreshing(tr: Seq<CacheStep>, j: int, m: int)
    requires
        cache_trace_ok(tr),
        0 <= j < tr.len(),
        begins_refresh(tr[j]),
        j < m < tr.len(),
        forall|i: int| j < i < m ==> !ends_refresh(#[trigger] tr[i]),
    ensures
        tr[m].pre.refreshing,
    decreases m,
{
    if m == j + 1 {
        assert(cache_step_ok(tr[j]));
        assert(tr[j].post == tr[m].pre);
    } else {
        lemma_still_refreshing(tr, j, m - 1);
        assert(cache_step_ok(tr[m - 1]));
        assert(tr[m - 1].post == tr[m].pre);
    }
}

/// At most one token refresh is ever in flight: between any two decisions
/// to start a refresh, the first refresh completed or failed. Concurrent
/// requests sharing the provider therefore never issue two refresh calls
/// at once.
pub proof fn lemma_single_refresh_in_flight(tr: Seq<CacheStep>, j: int, k: int)
    requires
        cache_trace_ok(tr),
        0 <= j < k < tr.len(),
        begins_refresh(tr[j]),
        begins_refresh(tr[k]),
    ensures
        exists|m: int| j < m < k && ends_refresh(#[trigger] tr[m]),
{
    if forall|i: int| j < i < k ==> !ends_refresh(#[trigger] tr[i]) {
        lemma_still_refreshing(tr, j, k);
        assert(cache_step_ok(tr[k]));
        assert(false);
    }
}

} // verus!
