//! The installation token cache.
//!
//! A map from installation id to an access token stamped with the time it
//! was issued.  A token is returned by lookup only while it is younger than
//! `MAX_TTL`; an expired entry counts as absent and is replaced, not
//! mutated, on the next refresh.  Time enters as an explicit argument, so
//! every caller's clock reading is pinned by the contract.

use vstd::prelude::*;

use std::collections::HashMap;

verus! {

broadcast use vstd::std_specs::hash::group_hash_axioms;

/// How long a cached token stays valid, in seconds.
pub const MAX_TTL: u64 = 30 * 60;

/// Whether a token issued at `issued_at` is still fresh at `now`.
pub open spec fn token_fresh(issued_at: u64, now: u64) -> bool {
    issued_at <= now && now - issued_at < MAX_TTL
}

/// Whether a lookup of `installation_id` at time `now` hits in cache `m`.
pub open spec fn lookup_hit(m: Map<u64, (u64, String)>, installation_id: u64, now: u64) -> bool {
    m.contains_key(installation_id) && token_fresh(m[installation_id].0, now)
}

/// The token cache: installation id to (issue time, token).
pub struct TokenStore {
    tokens: HashMap<u64, (u64, String)>,
}

impl View for TokenStore {
    type V = Map<u64, (u64, String)>;

    closed spec fn view(&self) -> Map<u64, (u64, String)> {
        self.tokens@
    }
}

impl TokenStore {
    /// An empty cache.
    pub fn new() -> (s: Self)
        ensures
            s@ == Map::<u64, (u64, String)>::empty(),
    {
        TokenStore { tokens: HashMap::new() }
    }

    /// Store `token` for `installation_id` as issued at `now`, replacing any
    /// earlier entry.
    pub fn add_token(&mut self, installation_id: u64, token: String, now: u64)
        ensures
            final(self)@ == old(self)@.insert(installation_id, (now, token)),
    {
        self.tokens.insert(installation_id, (now, token));
    }

    /// Look up the token for `installation_id` at time `now`.  Returns the
    /// stored token exactly when the entry exists and is still fresh; an
    /// expired or missing entry yields nothing.
    pub fn get_token(&self, installation_id: u64, now: u64) -> (r: Option<String>)
        ensures
            match r {
                Some(t) => lookup_hit(self@, installation_id, now) && t@
                    == self@.index(installation_id).1@,
                None => !lookup_hit(self@, installation_id, now),
            },
    {
        match self.tokens.get(&installation_id) {
            Some(entry) => {
                if entry.0 <= now && now - entry.0 < MAX_TTL {
                    Some(entry.1.clone())
                } else {
                    None
                }
            },
            None => None,
        }
    }
}

/// Law: once a token is cached at time `t0`, every lookup strictly inside
/// the TTL window hits and yields that very token, and every lookup at or
/// past the window's end misses, so a fresh exchange is required.
pub proof fn lemma_cached_token_ttl(
    m: Map<u64, (u64, String)>,
    installation_id: u64,
    t0: u64,
    token: String,
    t_in: u64,
    t_out: u64,
)
    requires
        t0 <= t_in < t0 + MAX_TTL,
        t_out >= t0 + MAX_TTL,
    ensures
        lookup_hit(m.insert(installation_id, (t0, token)), installation_id, t_in),
        m.insert(installation_id, (t0, token))[installation_id].1 == token,
        !lookup_hit(m.insert(installation_id, (t0, token)), installation_id, t_out),
{
}

} // verus!
