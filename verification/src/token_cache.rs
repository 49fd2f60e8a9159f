//! The one-slot cache of the registry's own bearer token for the satellite.

use vstd::prelude::*;

verus! {

/// A bearer token and the second from which it no longer counts.
#[derive(Debug, Clone, PartialEq, Eq)]
pub struct CachedToken {
    pub access_token: String,
    pub expires_at: i64,
}

/// The cache: empty, or holding one token with its expiry.
///
/// The slot is replaced as a whole, so a reader sees either the old token with
/// the old expiry or the new token with the new one.
#[derive(Debug)]
pub struct TokenCache {
    slot: Option<CachedToken>,
}

pub struct CachedTokenView {
    pub access_token: Seq<char>,
    pub expires_at: int,
}

impl View for CachedToken {
    type V = CachedTokenView;

    open spec fn view(&self) -> CachedTokenView {
        CachedTokenView { access_token: self.access_token@, expires_at: self.expires_at as int }
    }
}

/// What a cache holds, as mathematics: nothing, or a token and its expiry.
pub type CacheView = Option<CachedTokenView>;

/// The cache that holds `access_token` until `expires_at`.
pub open spec fn filled(access_token: Seq<char>, expires_at: int) -> CacheView {
    Some(CachedTokenView { access_token, expires_at })
}

/// A cache is invalid at `now` when it is empty or `now` has reached the expiry.
pub open spec fn invalid_at(cache: CacheView, now: int) -> bool {
    match cache {
        None => true,
        Some(token) => now >= token.expires_at,
    }
}

impl View for TokenCache {
    type V = CacheView;

    closed spec fn view(&self) -> CacheView {
        match self.slot {
            Some(token) => Some(token@),
            None => None,
        }
    }
}

impl TokenCache {
    /// The empty cache.
    pub fn new() -> (cache: TokenCache)
        ensures
            cache@ is None,
    {
        TokenCache { slot: None }
    }

    /// Whether a fresh token must be fetched at `now`. Reads only.
    pub fn is_invalid(&self, now: i64) -> (invalid: bool)
        ensures
            invalid == invalid_at(self@, now as int),
    {
        match &self.slot {
            None => true,
            Some(token) => now >= token.expires_at,
        }
    }

    /// Replaces the slot: afterwards the cache holds exactly this token and expiry.
    pub fn update(&mut self, access_token: String, expires_at: i64)
        ensures
            final(self)@ == filled(access_token@, expires_at as int),
    {
        self.slot = Some(CachedToken { access_token, expires_at });
    }

    /// The token in the slot, whether or not it still counts.
    pub fn access_token(&self) -> (token: Option<String>)
        ensures
            match token {
                Some(text) => self@ matches Some(held) && text@ == held.access_token,
                None => self@ is None,
            },
    {
        match &self.slot {
            Some(token) => Some(token.access_token.clone()),
            None => None,
        }
    }

    /// The expiry in the slot.
    pub fn expires_at(&self) -> (expiry: Option<i64>)
        ensures
            match expiry {
                Some(second) => self@ matches Some(held) && second as int == held.expires_at,
                None => self@ is None,
            },
    {
        match &self.slot {
            Some(token) => Some(token.expires_at),
            None => None,
        }
    }
}

/// A cache that was never written is invalid at every time.
pub proof fn lemma_new_cache_is_invalid(now: int)
    ensures
        invalid_at(None, now),
{
}

/// A written token counts at every time before its expiry and at no time from
/// the expiry on, whatever the token and whatever the cache held before.
pub proof fn lemma_written_token_counts_until_expiry(
    access_token: Seq<char>,
    expires_at: int,
    now: int,
)
    ensures
        invalid_at(filled(access_token, expires_at), now) <==> now >= expires_at,
{
}

} // verus!
