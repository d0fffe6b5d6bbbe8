use vstd::prelude::*;
use vstd::string::StringExecFns;
use crate::gigachat::types::Token;

verus! {

/// What the cache serves at a given instant: the stored token while its
/// expiry lies strictly in the future, nothing otherwise.
pub open spec fn spec_get_valid(cache: TokenCache, now: u64) -> Option<Token> {
    match cache.token {
        Some(t) => if t.expires_at > now {
            Some(t)
        } else {
            None
        },
        None => None,
    }
}

/// The lazily refreshed bearer-token cache of the model API client. It holds
/// at most one token; a token is served only while it has not expired, and a
/// refresh replaces it wholesale.
#[derive(Debug)]
pub struct TokenCache {
    pub token: Option<Token>,
}

impl TokenCache {
    /// An empty cache: the first request must refresh.
    pub fn new() -> (r: Self)
        ensures
            r.token is None,
    {
        TokenCache { token: None }
    }

    /// The cached token while it is still valid at `now`, returned exactly as
    /// stored; nothing when the cache is empty or the token has expired, in
    /// which case the caller owes one credential exchange followed by
    /// `store`. This decision touches no I/O.
    pub fn get_valid(&self, now: u64) -> (r: Option<Token>)
        ensures
            r == spec_get_valid(*self, now),
    {
        match &self.token {
            Some(t) => if t.expires_at > now {
                Some(t.duplicate())
            } else {
                None
            },
            None => None,
        }
    }

    /// Replace the cache wholesale with a freshly obtained token.
    pub fn store(&mut self, token: Token)
        ensures
            final(self).token == Some(token),
    {
        self.token = Some(token);
    }
}

/// Law: a token whose expiry lies strictly in the future is served from the
/// cache exactly as stored, so no refresh is called for.
pub proof fn lemma_fresh_token_served_unchanged(cache: TokenCache, now: u64)
    requires
        cache.token matches Some(t) && t.expires_at > now,
    ensures
        spec_get_valid(cache, now) == cache.token,
{
}

/// Law: a missing or expired token is never served — the cache yields
/// nothing, so the caller must perform exactly one credential exchange — and
/// storing the exchange's result leaves the fresh token, and only it, in the
/// cache.
pub proof fn lemma_stale_token_forces_refresh(cache: TokenCache, now: u64, fresh: Token)
    requires
        cache.token matches Some(t) ==> t.expires_at <= now,
    ensures
        spec_get_valid(cache, now) is None,
        spec_get_valid((TokenCache { token: Some(fresh) }), now) == if fresh.expires_at > now {
            Some(fresh)
        } else {
            None::<Token>
        },
{
}

/// The completions endpoint under the model API base.
pub fn completions_url(base: &str) -> (r: String)
    ensures
        r@ == base@ + "/chat/completions"@,
{
    let mut s = String::from_str(base);
    s.append("/chat/completions");
    s
}

/// The token-count endpoint under the model API base.
pub fn count_url(base: &str) -> (r: String)
    ensures
        r@ == base@ + "/tokens/count"@,
{
    let mut s = String::from_str(base);
    s.append("/tokens/count");
    s
}

} // verus!
