//! Asking the satellite whether it knows a party: first the registry's own
//! token, from the cache or from the token endpoint, then the question.
//!
//! A party's record is never kept; every lookup asks afresh.

use crate::error::AppErrorView;
use crate::party::{PartyInfo, PartyInfoView, ValidatePartyError, ValidatePartyErrorView};
use crate::satellite_token::{expiry_fits, store_satellite_token};
use crate::satellite_token::{TokenPlan, TokenResponse, TokenResponseView};
use crate::token_cache::{filled, CacheView, TokenCache};
use vstd::prelude::*;

verus! {

/// What a lookup is waiting for.
#[derive(Debug, Clone, Copy, PartialEq, Eq)]
pub enum PartyLookupStage {
    AwaitingSatelliteToken,
    AwaitingParty,
    Finished,
}

/// One lookup in progress.
#[derive(Debug)]
pub struct PartyLookup {
    stage: PartyLookupStage,
    eori: String,
    now: i64,
}

pub struct PartyLookupView {
    pub stage: PartyLookupStage,
    pub eori: Seq<char>,
    /// The time of the lookup, as of which the satellite is asked.
    pub now: int,
}

impl View for PartyLookup {
    type V = PartyLookupView;

    closed spec fn view(&self) -> PartyLookupView {
        PartyLookupView { stage: self.stage, eori: self.eori@, now: self.now as int }
    }
}

/// What the caller is asked to do next, or the outcome.
#[derive(Debug, Clone, PartialEq, Eq)]
pub enum PartyLookupAction {
    /// Exchange this assertion at the satellite's token endpoint.
    ExchangeSatelliteToken { client_assertion: String },
    /// Ask the satellite for the party's record as of `now`, with this bearer token.
    ValidateParty { eori: String, bearer_token: String, now: i64 },
    /// The satellite knows the party as an active one.
    Validated { party: PartyInfo },
    /// The satellite did not vouch for the party.
    Failed { error: ValidatePartyError },
}

pub enum PartyLookupActionView {
    ExchangeSatelliteToken { client_assertion: Seq<char> },
    ValidateParty { eori: Seq<char>, bearer_token: Seq<char>, now: int },
    Validated { party: PartyInfoView },
    Failed { error: ValidatePartyErrorView },
}

impl View for PartyLookupAction {
    type V = PartyLookupActionView;

    open spec fn view(&self) -> PartyLookupActionView {
        match self {
            PartyLookupAction::ExchangeSatelliteToken { client_assertion } => {
                PartyLookupActionView::ExchangeSatelliteToken { client_assertion: client_assertion@ }
            },
            PartyLookupAction::ValidateParty { eori, bearer_token, now } => {
                PartyLookupActionView::ValidateParty {
                    eori: eori@,
                    bearer_token: bearer_token@,
                    now: *now as int,
                }
            },
            PartyLookupAction::Validated { party } => PartyLookupActionView::Validated {
                party: party@,
            },
            PartyLookupAction::Failed { error } => PartyLookupActionView::Failed { error: error@ },
        }
    }
}

/// The answer to the request a lookup handed out.
#[derive(Debug, PartialEq, Eq)]
#[allow(inconsistent_fields)]
pub enum PartyLookupEvent {
    SatelliteTokenExchanged { outcome: Result<TokenResponse, String> },
    PartyValidated { outcome: Result<PartyInfo, ValidatePartyError> },
}

#[allow(inconsistent_fields)]
pub enum PartyLookupEventView {
    SatelliteTokenExchanged { outcome: Result<TokenResponseView, Seq<char>> },
    PartyValidated { outcome: Result<PartyInfoView, ValidatePartyErrorView> },
}

impl View for PartyLookupEvent {
    type V = PartyLookupEventView;

    open spec fn view(&self) -> PartyLookupEventView {
        match self {
            PartyLookupEvent::SatelliteTokenExchanged { outcome } => {
                PartyLookupEventView::SatelliteTokenExchanged {
                    outcome: match outcome {
                        Ok(response) => Ok(response@),
                        Err(cause) => Err(cause@),
                    },
                }
            },
            PartyLookupEvent::PartyValidated { outcome } => PartyLookupEventView::PartyValidated {
                outcome: match outcome {
                    Ok(party) => Ok(party@),
                    Err(error) => Err(error@),
                },
            },
        }
    }
}

/// A failure in words: what was being done, a colon, and what went wrong.
pub open spec fn in_context(context: Seq<char>, cause: Seq<char>) -> Seq<char> {
    context + ": "@ + cause
}

/// The failure to get the registry's own token, as a failure of the lookup.
pub open spec fn token_failure(error: AppErrorView) -> ValidatePartyErrorView {
    ValidatePartyErrorView::Unexpected(
        in_context(
            "Error getting sattelite token"@,
            match error {
                AppErrorView::Unexpected(failure) => in_context(failure.context, failure.cause),
                AppErrorView::Expected(rejection) => rejection.message,
            },
        ),
    )
}

/// The satellite's refusal as the lookup reports it: a refusal that is the
/// party's to mend is handed on as it is, and any other gets the party's
/// identifier put before it.
pub open spec fn lookup_failure(eori: Seq<char>, error: ValidatePartyErrorView) -> ValidatePartyErrorView {
    match error {
        ValidatePartyErrorView::Unexpected(cause) => ValidatePartyErrorView::Unexpected(
            in_context("error validating company '"@ + eori + "' is ishare party"@, cause),
        ),
        _ => error,
    }
}

/// The failure of an answer that the lookup was not waiting for.
pub open spec fn lookup_out_of_order() -> ValidatePartyErrorView {
    ValidatePartyErrorView::Unexpected(
        "party validation out of order: the answer does not belong to the pending request"@,
    )
}

/// A lookup, the cache and the action after one answer.
pub struct PartyLookupTransition {
    pub lookup: PartyLookupView,
    pub cache: CacheView,
    pub action: PartyLookupActionView,
}

/// The lookup ended without a record; the cache is as it was.
pub open spec fn lookup_fail(
    lookup: PartyLookupView,
    cache: CacheView,
    error: ValidatePartyErrorView,
) -> PartyLookupTransition {
    PartyLookupTransition {
        lookup: PartyLookupView { stage: PartyLookupStage::Finished, ..lookup },
        cache,
        action: PartyLookupActionView::Failed { error },
    }
}

/// The whole of the rules: what each answer, arriving at `now`, leads to in each stage.
pub open spec fn lookup_transition(
    lookup: PartyLookupView,
    cache: CacheView,
    now: int,
    event: PartyLookupEventView,
) -> PartyLookupTransition {
    match (lookup.stage, event) {
        (
            PartyLookupStage::AwaitingSatelliteToken,
            PartyLookupEventView::SatelliteTokenExchanged { outcome: Ok(response) },
        ) => PartyLookupTransition {
            lookup: PartyLookupView { stage: PartyLookupStage::AwaitingParty, ..lookup },
            cache: filled(response.access_token, now + response.expires_in),
            action: PartyLookupActionView::ValidateParty {
                eori: lookup.eori,
                bearer_token: response.access_token,
                now: lookup.now,
            },
        },
        (
            PartyLookupStage::AwaitingSatelliteToken,
            PartyLookupEventView::SatelliteTokenExchanged { outcome: Err(cause) },
        ) => lookup_fail(
            lookup,
            cache,
            token_failure(crate::satellite_token::exchange_failure(cause)),
        ),
        (
            PartyLookupStage::AwaitingParty,
            PartyLookupEventView::PartyValidated { outcome: Ok(party) },
        ) => PartyLookupTransition {
            lookup: PartyLookupView { stage: PartyLookupStage::Finished, ..lookup },
            cache,
            action: PartyLookupActionView::Validated { party },
        },
        (
            PartyLookupStage::AwaitingParty,
            PartyLookupEventView::PartyValidated { outcome: Err(error) },
        ) => lookup_fail(lookup, cache, lookup_failure(lookup.eori, error)),
        _ => lookup_fail(lookup, cache, lookup_out_of_order()),
    }
}

/// Whether the expiry of the token that an answer brings, if it brings one,
/// can be written down at `now`.
pub open spec fn lookup_expiry_fits(now: int, event: PartyLookupEvent) -> bool {
    event matches PartyLookupEvent::SatelliteTokenExchanged { outcome } ==> expiry_fits(
        now,
        outcome,
    )
}

/// Puts what was being done before what went wrong.
pub fn describe(context: &str, cause: &str) -> (text: String)
    ensures
        text@ == in_context(context@, cause@),
{
    let mut text = context.to_owned();
    text.append(": ");
    text.append(cause);
    text
}

/// Reports a failure to get the registry's own token as a failure of the lookup.
pub fn fail_for_token(error: &crate::error::AppError) -> (failure: ValidatePartyError)
    ensures
        failure@ == token_failure(error@),
{
    let cause = match error {
        crate::error::AppError::Unexpected(failure) => describe(
            failure.context.as_str(),
            failure.cause.as_str(),
        ),
        crate::error::AppError::Expected(rejection) => rejection.message.clone(),
    };
    ValidatePartyError::Unexpected(describe("Error getting sattelite token", cause.as_str()))
}

/// Reports the satellite's refusal to vouch for `eori`.
pub fn fail_for_party(eori: &str, error: ValidatePartyError) -> (failure: ValidatePartyError)
    ensures
        failure@ == lookup_failure(eori@, error@),
{
    match error {
        ValidatePartyError::Unexpected(cause) => {
            let mut context = "error validating company '".to_owned();
            context.append(eori);
            context.append("' is ishare party");
            ValidatePartyError::Unexpected(describe(context.as_str(), cause.as_str()))
        },
        typed => typed,
    }
}

/// What a lookup starts with, given how the registry comes by its token:
/// the question to the satellite where the token is at hand, the exchange
/// where it has to be fetched, and the end where it cannot be.
pub open spec fn lookup_start(
    eori: Seq<char>,
    now: int,
    plan: crate::satellite_token::TokenPlanView,
) -> (PartyLookupView, PartyLookupActionView) {
    match plan {
        crate::satellite_token::TokenPlanView::Cached { access_token } => (
            PartyLookupView { stage: PartyLookupStage::AwaitingParty, eori, now },
            PartyLookupActionView::ValidateParty { eori, bearer_token: access_token, now },
        ),
        crate::satellite_token::TokenPlanView::Exchange { client_assertion } => (
            PartyLookupView { stage: PartyLookupStage::AwaitingSatelliteToken, eori, now },
            PartyLookupActionView::ExchangeSatelliteToken { client_assertion },
        ),
        crate::satellite_token::TokenPlanView::Failed { error } => (
            PartyLookupView { stage: PartyLookupStage::Finished, eori, now },
            PartyLookupActionView::Failed { error: token_failure(error) },
        ),
    }
}

impl PartyLookup {
    /// Starts a lookup of `eori` as of `now`, given how the registry comes by its token.
    pub fn start(eori: &str, now: i64, plan: TokenPlan) -> (start: (PartyLookup, PartyLookupAction))
        ensures
            (start.0@, start.1@) == lookup_start(eori@, now as int, plan@),
    {
        match plan {
            TokenPlan::Cached { access_token } => (
                PartyLookup { stage: PartyLookupStage::AwaitingParty, eori: eori.to_owned(), now },
                PartyLookupAction::ValidateParty {
                    eori: eori.to_owned(),
                    bearer_token: access_token,
                    now,
                },
            ),
            TokenPlan::Exchange { client_assertion } => (
                PartyLookup {
                    stage: PartyLookupStage::AwaitingSatelliteToken,
                    eori: eori.to_owned(),
                    now,
                },
                PartyLookupAction::ExchangeSatelliteToken { client_assertion },
            ),
            TokenPlan::Failed { error } => (
                PartyLookup { stage: PartyLookupStage::Finished, eori: eori.to_owned(), now },
                PartyLookupAction::Failed { error: fail_for_token(&error) },
            ),
        }
    }

    pub fn stage(&self) -> (stage: PartyLookupStage)
        ensures
            stage == self@.stage,
    {
        self.stage
    }

    fn fail(&mut self, error: ValidatePartyError) -> (action: PartyLookupAction)
        ensures
            final(self)@ == (PartyLookupView { stage: PartyLookupStage::Finished, ..old(self)@ }),
            action@ == (PartyLookupActionView::Failed { error: error@ }),
    {
        self.stage = PartyLookupStage::Finished;
        PartyLookupAction::Failed { error }
    }

    /// Takes the answer to the pending request, received at `now`, and hands
    /// out the next request or the outcome, as [`lookup_transition`] rules.
    pub fn advance(&mut self, cache: &mut TokenCache, now: i64, event: PartyLookupEvent) -> (action:
        PartyLookupAction)
        requires
            lookup_expiry_fits(now as int, event),
        ensures
            lookup_transition(old(self)@, old(cache)@, now as int, event@) == (
            PartyLookupTransition { lookup: final(self)@, cache: final(cache)@, action: action@ }),
    {
        match (self.stage, event) {
            (
                PartyLookupStage::AwaitingSatelliteToken,
                PartyLookupEvent::SatelliteTokenExchanged { outcome },
            ) => {
                match store_satellite_token(cache, now, outcome) {
                    Ok(bearer_token) => {
                        self.stage = PartyLookupStage::AwaitingParty;
                        PartyLookupAction::ValidateParty {
                            eori: self.eori.clone(),
                            bearer_token,
                            now: self.now,
                        }
                    },
                    Err(error) => {
                        let failure = fail_for_token(&error);
                        self.fail(failure)
                    },
                }
            },
            (PartyLookupStage::AwaitingParty, PartyLookupEvent::PartyValidated { outcome }) => {
                match outcome {
                    Ok(party) => {
                        self.stage = PartyLookupStage::Finished;
                        PartyLookupAction::Validated { party }
                    },
                    Err(error) => {
                        let failure = fail_for_party(self.eori.as_str(), error);
                        self.fail(failure)
                    },
                }
            },
            _ => self.fail(
                ValidatePartyError::Unexpected(
                    "party validation out of order: the answer does not belong to the pending request".to_owned(),
                ),
            ),
        }
    }
}

/// A refusal by which the satellite says that it does not know the party as
/// an active one reaches the caller as it was given, so that the caller can
/// tell it from a failure of the way to the satellite; and a failure of that
/// way never reaches the caller as such a refusal.
pub proof fn lemma_lookup_keeps_the_kind_of_refusal(eori: Seq<char>, error: ValidatePartyErrorView)
    ensures
        lookup_failure(eori, error).is_client_attributable() == error.is_client_attributable(),
        error.is_client_attributable() ==> lookup_failure(eori, error) == error,
{
}

/// Nothing but a refusal by the satellite itself reaches the caller as the
/// party's to mend: a lookup that fails over the registry's own token, or
/// over an answer out of order, fails as a matter of the surroundings.
pub proof fn lemma_only_the_satellite_blames_the_party(
    lookup: PartyLookupView,
    cache: CacheView,
    now: int,
    event: PartyLookupEventView,
)
    requires
        lookup_transition(lookup, cache, now, event).action matches PartyLookupActionView::Failed {
            error,
        } && error.is_client_attributable(),
    ensures
        lookup.stage is AwaitingParty,
        event matches PartyLookupEventView::PartyValidated { outcome: Err(error) }
            && error.is_client_attributable(),
{
}

/// A party's record comes from nowhere but the satellite's answer to the
/// pending question, and is handed on as the satellite gave it.
pub proof fn lemma_record_comes_from_the_satellite(
    lookup: PartyLookupView,
    cache: CacheView,
    now: int,
    event: PartyLookupEventView,
)
    requires
        lookup_transition(lookup, cache, now, event).action is Validated,
    ensures
        lookup.stage is AwaitingParty,
        event matches PartyLookupEventView::PartyValidated { outcome: Ok(party) }
            && lookup_transition(lookup, cache, now, event).action == (
        PartyLookupActionView::Validated { party }),
{
}

/// The cache is written only by the answer of the token endpoint that the
/// lookup was waiting for, and a lookup keeps the party and the time it began with.
pub proof fn lemma_lookup_writes_the_cache_only_by_the_exchange(
    lookup: PartyLookupView,
    cache: CacheView,
    now: int,
    event: PartyLookupEventView,
)
    ensures
        match (lookup.stage, event) {
            (
                PartyLookupStage::AwaitingSatelliteToken,
                PartyLookupEventView::SatelliteTokenExchanged { outcome: Ok(response) },
            ) => lookup_transition(lookup, cache, now, event).cache == filled(
                response.access_token,
                now + response.expires_in,
            ),
            _ => lookup_transition(lookup, cache, now, event).cache == cache,
        },
        lookup_transition(lookup, cache, now, event).lookup.eori == lookup.eori,
        lookup_transition(lookup, cache, now, event).lookup.now == lookup.now,
{
}

} // verus!
