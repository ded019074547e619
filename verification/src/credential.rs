//! The credential cache: a lazily refreshed bearer credential with
//! expiry-aware reuse.
//!
//! The cache itself is pure state plus decisions. The surrounding code owns
//! a `CredentialCache` behind a mutual-exclusion lock, calls `lookup` under
//! the lock, performs the network refresh outside the lock when `lookup`
//! returns nothing, and calls `store` under the lock with the outcome
//! (last write wins).

use vstd::prelude::*;

verus! {

/// Safety margin, in milliseconds, before the stated expiry within which a
/// credential is already treated as expired.
pub const EXPIRY_MARGIN_MS: i64 = 10_000;

/// A bearer credential: an access token together with its absolute expiry
/// instant and the duration it was issued for, both in milliseconds.
#[derive(Debug)]
pub struct Credential {
    pub access_token: String,
    pub expires_at_ms: i64,
    pub expires_in_ms: i64,
}

/// The mathematical shape of a credential.
pub struct CredentialModel {
    pub access_token: Seq<char>,
    pub expires_at_ms: int,
    pub expires_in_ms: int,
}

impl View for Credential {
    type V = CredentialModel;

    open spec fn view(&self) -> CredentialModel {
        CredentialModel {
            access_token: self.access_token@,
            expires_at_ms: self.expires_at_ms as int,
            expires_in_ms: self.expires_in_ms as int,
        }
    }
}

impl Credential {
    /// An exact copy of the credential.
    pub fn duplicate(&self) -> (r: Credential)
        ensures
            r@ == self@,
    {
        Credential {
            access_token: self.access_token.clone(),
            expires_at_ms: self.expires_at_ms,
            expires_in_ms: self.expires_in_ms,
        }
    }
}

/// Whether a credential is still valid at `now_ms`: its expiry, less the
/// safety margin, lies strictly in the future.
pub open spec fn spec_valid_at(c: CredentialModel, now_ms: int) -> bool {
    now_ms + EXPIRY_MARGIN_MS < c.expires_at_ms
}

/// Builds a credential issued at `now_ms` for `expires_in_ms`.
pub fn make_credential(access_token: String, now_ms: i64, expires_in_ms: i64) -> (c: Credential)
    requires
        0 <= expires_in_ms,
        now_ms + expires_in_ms <= i64::MAX,
    ensures
        c@.access_token == access_token@,
        c@.expires_at_ms == now_ms + expires_in_ms,
        c@.expires_in_ms == expires_in_ms,
{
    Credential { access_token, expires_at_ms: now_ms + expires_in_ms, expires_in_ms }
}

/// The cache cell: at most one credential, or nothing.
pub struct CredentialCache {
    pub cached: Option<Credential>,
}

/// What `lookup` returns: the cached credential exactly when one is present
/// and still valid at `now_ms`.
pub open spec fn spec_lookup(cache: CredentialCache, now_ms: int) -> Option<CredentialModel> {
    match cache.cached {
        Some(c) => if spec_valid_at(c@, now_ms) {
            Some(c@)
        } else {
            None
        },
        None => None,
    }
}

/// Whether a refresh is owed at `now_ms`: no cached credential, or the
/// cached one is no longer valid.
pub open spec fn spec_refresh_needed(cache: CredentialCache, now_ms: int) -> bool {
    spec_lookup(cache, now_ms) is None
}

impl CredentialCache {
    /// An empty cache.
    pub fn new() -> (c: CredentialCache)
        ensures
            c.cached is None,
    {
        CredentialCache { cached: None }
    }

    /// Returns a copy of the cached credential exactly when one is present
    /// and still valid at `now_ms`; otherwise nothing, and the caller must
    /// refresh.
    pub fn lookup(&self, now_ms: i64) -> (r: Option<Credential>)
        requires
            now_ms + EXPIRY_MARGIN_MS <= i64::MAX,
        ensures
            match r {
                Some(c) => spec_lookup(*self, now_ms as int) == Some(c@),
                None => spec_lookup(*self, now_ms as int) is None,
            },
    {
        match &self.cached {
            Some(c) => {
                if now_ms + EXPIRY_MARGIN_MS < c.expires_at_ms {
                    Some(c.duplicate())
                } else {
                    None
                }
            },
            None => None,
        }
    }

    /// Stores the outcome of a refresh attempt. A successful refresh
    /// replaces whatever was cached before (last write wins); a failed one
    /// leaves any previous cached value in place.
    pub fn store(&mut self, fresh: Option<Credential>)
        ensures
            fresh is Some ==> final(self).cached == fresh,
            fresh is None ==> final(self).cached == old(self).cached,
    {
        if fresh.is_some() {
            self.cached = fresh;
        }
    }
}

/// Law: a credential fetched twice within its validity window returns the
/// identical cached value both times, and neither fetch owes a refresh.
pub proof fn lemma_cache_stable(cache: CredentialCache, now1_ms: int, now2_ms: int)
    requires
        cache.cached matches Some(c) && spec_valid_at(c@, now1_ms) && spec_valid_at(c@, now2_ms),
    ensures
        spec_lookup(cache, now1_ms) == spec_lookup(cache, now2_ms),
        spec_lookup(cache, now1_ms) is Some,
        !spec_refresh_needed(cache, now1_ms),
        !spec_refresh_needed(cache, now2_ms),
{
}

} // verus!
