//! Getting the registry's own bearer token for the satellite: from the cache
//! while it counts, from the satellite's token endpoint once it does not.

use crate::error::{unexpected, AppError, AppErrorView};
use crate::token_cache::{filled, invalid_at, TokenCache};
use vstd::prelude::*;

verus! {

/// What the satellite's token endpoint answers: a bearer token and the number
/// of seconds for which it counts.
#[derive(Debug, Clone, PartialEq, Eq)]
pub struct TokenResponse {
    pub access_token: String,
    pub expires_in: i64,
}

pub struct TokenResponseView {
    pub access_token: Seq<char>,
    pub expires_in: int,
}

impl View for TokenResponse {
    type V = TokenResponseView;

    open spec fn view(&self) -> TokenResponseView {
        TokenResponseView { access_token: self.access_token@, expires_in: self.expires_in as int }
    }
}

/// What has to happen for the registry to hold a bearer token.
#[derive(Debug, Clone, PartialEq, Eq)]
pub enum TokenPlan {
    /// The cached token counts: use it, and call nobody.
    Cached { access_token: String },
    /// The cache is empty or stale: exchange this signed assertion at the
    /// satellite's token endpoint, and hand the answer to
    /// [`store_satellite_token`].
    Exchange { client_assertion: String },
    /// The cache is empty or stale and the assertion could not be signed.
    Failed { error: AppError },
}

pub enum TokenPlanView {
    Cached { access_token: Seq<char> },
    Exchange { client_assertion: Seq<char> },
    Failed { error: AppErrorView },
}

impl View for TokenPlan {
    type V = TokenPlanView;

    open spec fn view(&self) -> TokenPlanView {
        match self {
            TokenPlan::Cached { access_token } => TokenPlanView::Cached {
                access_token: access_token@,
            },
            TokenPlan::Exchange { client_assertion } => TokenPlanView::Exchange {
                client_assertion: client_assertion@,
            },
            TokenPlan::Failed { error } => TokenPlanView::Failed { error: error@ },
        }
    }
}

/// The failure to sign the assertion that would have been exchanged.
pub open spec fn signing_failure(cause: Seq<char>) -> AppErrorView {
    unexpected("Error creating client assertion"@, cause)
}

/// The failure of the exchange at the satellite's token endpoint.
pub open spec fn exchange_failure(cause: Seq<char>) -> AppErrorView {
    unexpected("Error retrieving satelite access token"@, cause)
}

/// The token of a cache that counts at `now`; `None` where the cache is
/// empty or `now` has reached its expiry.
pub open spec fn token_in_force(cache: crate::token_cache::CacheView, now: int) -> Option<
    Seq<char>,
> {
    match cache {
        Some(held) => if now < held.expires_at {
            Some(held.access_token)
        } else {
            None
        },
        None => None,
    }
}

/// Looks the token up in the cache. Reads only.
pub fn cached_token(cache: &TokenCache, now: i64) -> (token: Option<String>)
    ensures
        match token {
            Some(text) => token_in_force(cache@, now as int) == Some(text@),
            None => token_in_force(cache@, now as int) is None,
        },
        token is None <==> invalid_at(cache@, now as int),
{
    if cache.is_invalid(now) {
        None
    } else {
        cache.access_token()
    }
}

/// What to do once the cache was found empty or stale and the assertion for
/// the exchange was signed, or was not.
pub fn plan_exchange(signed: Result<String, String>) -> (plan: TokenPlan)
    ensures
        plan@ == match signed {
            Ok(client_assertion) => TokenPlanView::Exchange { client_assertion: client_assertion@ },
            Err(cause) => TokenPlanView::Failed { error: signing_failure(cause@) },
        },
{
    match signed {
        Ok(client_assertion) => TokenPlan::Exchange { client_assertion },
        Err(cause) => TokenPlan::Failed {
            error: AppError::unexpected("Error creating client assertion", cause),
        },
    }
}

/// Whether the expiry of a token received at `now` can be written down.
pub open spec fn expiry_fits(now: int, outcome: Result<TokenResponse, String>) -> bool {
    outcome matches Ok(response) ==> i64::MIN <= now + response.expires_in <= i64::MAX
}

/// The answer of the token endpoint as mathematics.
pub open spec fn answer_of(outcome: Result<TokenResponse, String>) -> Result<
    TokenResponseView,
    Seq<char>,
> {
    match outcome {
        Ok(response) => Ok(response@),
        Err(cause) => Err(cause@),
    }
}

/// What a cache holds after an answer of the token endpoint, received at
/// `now`, was stored: the token of the answer where there is one, and what it
/// held before where there is none.
pub open spec fn after_storing(
    cache: crate::token_cache::CacheView,
    now: int,
    outcome: Result<TokenResponseView, Seq<char>>,
) -> crate::token_cache::CacheView {
    match outcome {
        Ok(response) => filled(response.access_token, now + response.expires_in),
        Err(_) => cache,
    }
}

/// Takes the answer of the satellite's token endpoint, received at `now`.
///
/// A token is written to the cache with the expiry `now + expires_in` and
/// returned; a failure leaves the cache as it was and is nobody's fault in
/// particular.
pub fn store_satellite_token(
    cache: &mut TokenCache,
    now: i64,
    outcome: Result<TokenResponse, String>,
) -> (token: Result<String, AppError>)
    requires
        expiry_fits(now as int, outcome),
    ensures
        match outcome {
            Ok(response) => token matches Ok(text) && text@ == response.access_token@,
            Err(cause) => token matches Err(error) && error@ == exchange_failure(cause@),
        },
        final(cache)@ == after_storing(old(cache)@, now as int, answer_of(outcome)),
{
    match outcome {
        Ok(response) => {
            let access_token = response.access_token.clone();
            cache.update(response.access_token, now + response.expires_in);
            Ok(access_token)
        },
        Err(cause) => Err(AppError::unexpected("Error retrieving satelite access token", cause)),
    }
}

/// After a token was stored at `now`, it is the token in force from `now`
/// until its lifetime has passed, and no longer; a lifetime of zero seconds
/// or less buys nothing.
pub proof fn lemma_stored_token_is_in_force_for_its_lifetime(
    access_token: Seq<char>,
    now: int,
    expires_in: int,
    later: int,
)
    ensures
        token_in_force(filled(access_token, now + expires_in), later) == if later < now
            + expires_in {
            Some(access_token)
        } else {
            None::<Seq<char>>
        },
{
}

/// Refreshes that overlap do not disturb one another: whatever two requests
/// that both found the cache stale bring back, and in whichever order their
/// answers are stored, the cache ends up holding the token that was stored
/// last, whole, with its own expiry; and a failed exchange takes nothing
/// away from what the other stored.
pub proof fn lemma_overlapping_refreshes_last_write_wins(
    cache: crate::token_cache::CacheView,
    first_at: int,
    first: Result<TokenResponseView, Seq<char>>,
    second_at: int,
    second: Result<TokenResponseView, Seq<char>>,
)
    ensures
        after_storing(after_storing(cache, first_at, first), second_at, second) == match second {
            Ok(response) => filled(response.access_token, second_at + response.expires_in),
            Err(_) => after_storing(cache, first_at, first),
        },
{
}

/// A token at or past its expiry is never served: whatever token a cache
/// holds, from the second of its expiry on none is in force, so that a token
/// is fetched; and once the answer of the token endpoint is stored, the cache
/// holds the token of the answer, with the expiry that the answer gives it,
/// and the old expiry only if the answer gives the same.
pub proof fn lemma_stale_token_is_replaced_by_the_exchanged_one(
    held: Seq<char>,
    expires_at: int,
    now: int,
    stored_at: int,
    response: TokenResponseView,
)
    requires
        now >= expires_at,
    ensures
        token_in_force(filled(held, expires_at), now) is None,
        invalid_at(filled(held, expires_at), now),
        after_storing(filled(held, expires_at), stored_at, Ok(response)) == filled(
            response.access_token,
            stored_at + response.expires_in,
        ),
        forall|later: int|
            token_in_force(
                after_storing(filled(held, expires_at), stored_at, Ok(response)),
                later,
            ) == if later < stored_at + response.expires_in {
                Some(response.access_token)
            } else {
                None::<Seq<char>>
            },
{
}

} // verus!
