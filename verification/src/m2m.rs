//! The authentication of a machine client, from the moment its assertion was
//! admitted: what to ask of the satellite and of the store, in which order,
//! and what each answer leads to.
//!
//! The library decides; its caller does the asking. A flow hands out one
//! request at a time, takes the answer, and hands out the next request or the
//! verdict. Every answer it cannot use, and every failure, ends the flow in a
//! rejection.

use crate::assertion::{certificate_binding, certificate_is_listed, certificate_mismatch_rejection};
use crate::assertion::DecodedClientAssertion;
use crate::error::{expected, unexpected, AppError, AppErrorView, UNAUTHORIZED};
use crate::party::{PartyInfo, PartyInfoView, ValidatePartyError, ValidatePartyErrorView};
use crate::satellite_token::{exchange_failure, expiry_fits, store_satellite_token};
use crate::satellite_token::{TokenResponse, TokenResponseView};
use crate::token_cache::{filled, CacheView, TokenCache};
use vstd::prelude::*;

verus! {

/// What a flow is waiting for.
#[derive(Debug, Clone, Copy, PartialEq, Eq)]
pub enum M2mStage {
    AwaitingSatelliteToken,
    AwaitingParty,
    AwaitingCompany,
    Finished,
}

/// One authentication in progress.
#[derive(Debug)]
pub struct M2mFlow {
    stage: M2mStage,
    client_id: String,
    certificate_chain: Option<Vec<String>>,
    validate_certificate: bool,
    now: i64,
}

pub struct M2mFlowView {
    pub stage: M2mStage,
    pub client_id: Seq<char>,
    pub certificate_chain: Option<Seq<Seq<char>>>,
    pub validate_certificate: bool,
    /// The time of the request, at which the satellite is asked about the client.
    pub now: int,
}

impl View for M2mFlow {
    type V = M2mFlowView;

    closed spec fn view(&self) -> M2mFlowView {
        M2mFlowView {
            stage: self.stage,
            client_id: self.client_id@,
            certificate_chain: self.certificate_chain.deep_view(),
            validate_certificate: self.validate_certificate,
            now: self.now as int,
        }
    }
}

/// What the caller is asked to do next, or the verdict.
#[derive(Debug, Clone, PartialEq, Eq)]
pub enum M2mAction {
    /// Exchange this assertion at the satellite's token endpoint.
    ExchangeSatelliteToken { client_assertion: String },
    /// Ask the satellite for the party's record as of `now`, with this bearer token.
    ValidateParty { eori: String, bearer_token: String, now: i64 },
    /// Create the company's record unless there is one.
    ProvisionCompany { external_id: String, display_name: String },
    /// The client is authenticated as this company.
    Authenticated { company_id: String },
    /// The client is not authenticated.
    Rejected { error: AppError },
}

pub enum M2mActionView {
    ExchangeSatelliteToken { client_assertion: Seq<char> },
    ValidateParty { eori: Seq<char>, bearer_token: Seq<char>, now: int },
    ProvisionCompany { external_id: Seq<char>, display_name: Seq<char> },
    Authenticated { company_id: Seq<char> },
    Rejected { error: AppErrorView },
}

impl View for M2mAction {
    type V = M2mActionView;

    open spec fn view(&self) -> M2mActionView {
        match self {
            M2mAction::ExchangeSatelliteToken { client_assertion } => {
                M2mActionView::ExchangeSatelliteToken { client_assertion: client_assertion@ }
            },
            M2mAction::ValidateParty { eori, bearer_token, now } => M2mActionView::ValidateParty {
                eori: eori@,
                bearer_token: bearer_token@,
                now: *now as int,
            },
            M2mAction::ProvisionCompany { external_id, display_name } => {
                M2mActionView::ProvisionCompany {
                    external_id: external_id@,
                    display_name: display_name@,
                }
            },
            M2mAction::Authenticated { company_id } => M2mActionView::Authenticated {
                company_id: company_id@,
            },
            M2mAction::Rejected { error } => M2mActionView::Rejected { error: error@ },
        }
    }
}

impl M2mActionView {
    /// Whether the action sends the caller to the satellite.
    pub open spec fn calls_satellite(self) -> bool {
        self is ExchangeSatelliteToken || self is ValidateParty
    }

    /// Whether the action writes to the store.
    pub open spec fn writes(self) -> bool {
        self is ProvisionCompany
    }

    /// Whether the action ends the flow.
    pub open spec fn is_verdict(self) -> bool {
        self is Authenticated || self is Rejected
    }
}

/// The answer to the request a flow handed out.
#[derive(Debug, PartialEq, Eq)]
#[allow(inconsistent_fields)]
pub enum M2mEvent {
    SatelliteTokenExchanged { outcome: Result<TokenResponse, String> },
    PartyValidated { outcome: Result<PartyInfo, ValidatePartyError> },
    /// The identifier of the company's record, or why there is none.
    CompanyProvisioned { outcome: Result<String, String> },
}

#[allow(inconsistent_fields)]
pub enum M2mEventView {
    SatelliteTokenExchanged { outcome: Result<TokenResponseView, Seq<char>> },
    PartyValidated { outcome: Result<PartyInfoView, ValidatePartyErrorView> },
    CompanyProvisioned { outcome: Result<Seq<char>, Seq<char>> },
}

impl View for M2mEvent {
    type V = M2mEventView;

    open spec fn view(&self) -> M2mEventView {
        match self {
            M2mEvent::SatelliteTokenExchanged { outcome } => M2mEventView::SatelliteTokenExchanged {
                outcome: match outcome {
                    Ok(response) => Ok(response@),
                    Err(cause) => Err(cause@),
                },
            },
            M2mEvent::PartyValidated { outcome } => M2mEventView::PartyValidated {
                outcome: match outcome {
                    Ok(party) => Ok(party@),
                    Err(error) => Err(error@),
                },
            },
            M2mEvent::CompanyProvisioned { outcome } => M2mEventView::CompanyProvisioned {
                outcome: match outcome {
                    Ok(company_id) => Ok(company_id@),
                    Err(cause) => Err(cause@),
                },
            },
        }
    }
}

/// The rejection of a client that the satellite did not vouch for.
///
/// Where the satellite answered that it does not know the party as an active
/// one, the client is told so; where the satellite could not be asked, the
/// failure is not the client's.
pub open spec fn membership_rejection(
    client_id: Seq<char>,
    error: ValidatePartyErrorView,
) -> AppErrorView {
    if error.is_client_attributable() {
        expected(UNAUTHORIZED, error.message(), "iSHARE party validation failed"@)
    } else {
        unexpected("error validating ishare party '"@ + client_id + "'"@, error.message())
    }
}

/// The failure to tell whether the assertion's certificate is the party's.
pub open spec fn unreadable_certificate_failure() -> AppErrorView {
    unexpected("Error validating party certificate"@, "missing x5c header"@)
}

/// The failure of the store.
pub open spec fn provisioning_failure(cause: Seq<char>) -> AppErrorView {
    unexpected("Error inserting company into db"@, cause)
}

/// The rejection of an answer that the flow was not waiting for.
pub open spec fn out_of_order_failure() -> AppErrorView {
    unexpected(
        "authentication flow out of order"@,
        "the answer does not belong to the pending request"@,
    )
}

/// A flow, the cache and the action after one answer.
pub struct M2mTransition {
    pub flow: M2mFlowView,
    pub cache: CacheView,
    pub action: M2mActionView,
}

/// The flow ended by a rejection; the cache is as it was.
pub open spec fn m2m_reject(flow: M2mFlowView, cache: CacheView, error: AppErrorView) -> M2mTransition {
    M2mTransition {
        flow: M2mFlowView { stage: M2mStage::Finished, ..flow },
        cache,
        action: M2mActionView::Rejected { error },
    }
}

/// What the satellite's record of the party leads to: the certificate gate,
/// where it is switched on, and then the request to the store.
pub open spec fn m2m_after_party(
    flow: M2mFlowView,
    cache: CacheView,
    party: PartyInfoView,
) -> M2mTransition {
    let binding = certificate_binding(flow.certificate_chain, party.certificates);
    if flow.validate_certificate && binding == Some(false) {
        m2m_reject(flow, cache, certificate_mismatch_rejection())
    } else if flow.validate_certificate && binding is None {
        m2m_reject(flow, cache, unreadable_certificate_failure())
    } else {
        M2mTransition {
            flow: M2mFlowView { stage: M2mStage::AwaitingCompany, ..flow },
            cache,
            action: M2mActionView::ProvisionCompany {
                external_id: flow.client_id,
                display_name: party.party_name,
            },
        }
    }
}

/// The whole of the rules: what each answer, arriving at `now`, leads to in each stage.
pub open spec fn m2m_transition(
    flow: M2mFlowView,
    cache: CacheView,
    now: int,
    event: M2mEventView,
) -> M2mTransition {
    match (flow.stage, event) {
        (
            M2mStage::AwaitingSatelliteToken,
            M2mEventView::SatelliteTokenExchanged { outcome: Ok(response) },
        ) => M2mTransition {
            flow: M2mFlowView { stage: M2mStage::AwaitingParty, ..flow },
            cache: filled(response.access_token, now + response.expires_in),
            action: M2mActionView::ValidateParty {
                eori: flow.client_id,
                bearer_token: response.access_token,
                now: flow.now,
            },
        },
        (
            M2mStage::AwaitingSatelliteToken,
            M2mEventView::SatelliteTokenExchanged { outcome: Err(cause) },
        ) => m2m_reject(flow, cache, exchange_failure(cause)),
        (M2mStage::AwaitingParty, M2mEventView::PartyValidated { outcome: Ok(party) }) => {
            m2m_after_party(flow, cache, party)
        },
        (M2mStage::AwaitingParty, M2mEventView::PartyValidated { outcome: Err(error) }) => {
            m2m_reject(flow, cache, membership_rejection(flow.client_id, error))
        },
        (
            M2mStage::AwaitingCompany,
            M2mEventView::CompanyProvisioned { outcome: Ok(company_id) },
        ) => M2mTransition {
            flow: M2mFlowView { stage: M2mStage::Finished, ..flow },
            cache,
            action: M2mActionView::Authenticated { company_id },
        },
        (M2mStage::AwaitingCompany, M2mEventView::CompanyProvisioned { outcome: Err(cause) }) => {
            m2m_reject(flow, cache, provisioning_failure(cause))
        },
        _ => m2m_reject(flow, cache, out_of_order_failure()),
    }
}

/// Whether the expiry of the token that an answer brings, if it brings one,
/// can be written down at `now`.
pub open spec fn m2m_expiry_fits(now: int, event: M2mEvent) -> bool {
    event matches M2mEvent::SatelliteTokenExchanged { outcome } ==> expiry_fits(now, outcome)
}

/// Maps the satellite's refusal to vouch for the client.
pub fn reject_membership(client_id: &str, error: &ValidatePartyError) -> (rejection: AppError)
    ensures
        rejection@ == membership_rejection(client_id@, error@),
{
    if error.is_client_attributable() {
        AppError::expected(
            UNAUTHORIZED,
            error.message(),
            "iSHARE party validation failed".to_owned(),
        )
    } else {
        let mut context = "error validating ishare party '".to_owned();
        context.append(client_id);
        context.append("'");
        AppError::unexpected(context.as_str(), error.message())
    }
}

impl M2mFlow {
    /// The flow of a request that was turned away before anything was asked of anyone.
    pub(crate) fn turned_away(client_id: &str, validate_certificate: bool, now: i64) -> (flow:
        M2mFlow)
        ensures
            flow@ == (M2mFlowView {
                stage: M2mStage::Finished,
                client_id: client_id@,
                certificate_chain: None,
                validate_certificate,
                now: now as int,
            }),
    {
        M2mFlow {
            stage: M2mStage::Finished,
            client_id: client_id.to_owned(),
            certificate_chain: None,
            validate_certificate,
            now,
        }
    }

    /// The flow of a client whose assertion was admitted, waiting in `stage`.
    pub(crate) fn admitted(
        stage: M2mStage,
        client_id: &str,
        assertion: DecodedClientAssertion,
        validate_certificate: bool,
        now: i64,
    ) -> (flow: M2mFlow)
        ensures
            flow@ == (M2mFlowView {
                stage,
                client_id: client_id@,
                certificate_chain: assertion@.certificate_chain,
                validate_certificate,
                now: now as int,
            }),
    {
        M2mFlow {
            stage,
            client_id: client_id.to_owned(),
            certificate_chain: assertion.certificate_chain,
            validate_certificate,
            now,
        }
    }

    pub fn stage(&self) -> (stage: M2mStage)
        ensures
            stage == self@.stage,
    {
        self.stage
    }

    pub fn is_finished(&self) -> (finished: bool)
        ensures
            finished == (self@.stage is Finished),
    {
        match self.stage {
            M2mStage::Finished => true,
            _ => false,
        }
    }

    fn reject(&mut self, error: AppError) -> (action: M2mAction)
        ensures
            final(self)@ == (M2mFlowView { stage: M2mStage::Finished, ..old(self)@ }),
            action@ == (M2mActionView::Rejected { error: error@ }),
    {
        self.stage = M2mStage::Finished;
        M2mAction::Rejected { error }
    }

    fn after_party(&mut self, party: PartyInfo) -> (action: M2mAction)
        ensures
            forall|cache: CacheView|
                #![trigger m2m_after_party(old(self)@, cache, party@)]
                m2m_after_party(old(self)@, cache, party@) == (M2mTransition {
                    flow: final(self)@,
                    cache,
                    action: action@,
                }),
    {
        if self.validate_certificate {
            match certificate_is_listed(&self.certificate_chain, &party.certificates) {
                Ok(true) => {},
                Ok(false) => {
                    return self.reject(
                        AppError::expected(
                            UNAUTHORIZED,
                            "x5c header does not match any of the certificates from parties endpoint at the iSHARE satelite".to_owned(),
                            "The client assertion x5c does not match any of the valid tokens from /parties".to_owned(),
                        ),
                    );
                },
                Err(cause) => {
                    return self.reject(
                        AppError::unexpected("Error validating party certificate", cause),
                    );
                },
            }
        }
        self.stage = M2mStage::AwaitingCompany;
        M2mAction::ProvisionCompany {
            external_id: self.client_id.clone(),
            display_name: party.party_name,
        }
    }

    /// Takes the answer to the pending request, received at `now`, and hands
    /// out the next request or the verdict, as [`m2m_transition`] rules.
    pub fn advance(&mut self, cache: &mut TokenCache, now: i64, event: M2mEvent) -> (action:
        M2mAction)
        requires
            m2m_expiry_fits(now as int, event),
        ensures
            m2m_transition(old(self)@, old(cache)@, now as int, event@) == (M2mTransition {
                flow: final(self)@,
                cache: final(cache)@,
                action: action@,
            }),
    {
        match (self.stage, event) {
            (M2mStage::AwaitingSatelliteToken, M2mEvent::SatelliteTokenExchanged { outcome }) => {
                match store_satellite_token(cache, now, outcome) {
                    Ok(bearer_token) => {
                        self.stage = M2mStage::AwaitingParty;
                        M2mAction::ValidateParty {
                            eori: self.client_id.clone(),
                            bearer_token,
                            now: self.now,
                        }
                    },
                    Err(error) => self.reject(error),
                }
            },
            (M2mStage::AwaitingParty, M2mEvent::PartyValidated { outcome }) => {
                match outcome {
                    Ok(party) => self.after_party(party),
                    Err(error) => {
                        let rejection = reject_membership(self.client_id.as_str(), &error);
                        self.reject(rejection)
                    },
                }
            },
            (M2mStage::AwaitingCompany, M2mEvent::CompanyProvisioned { outcome }) => {
                match outcome {
                    Ok(company_id) => {
                        self.stage = M2mStage::Finished;
                        M2mAction::Authenticated { company_id }
                    },
                    Err(cause) => self.reject(
                        AppError::unexpected("Error inserting company into db", cause),
                    ),
                }
            },
            _ => self.reject(
                AppError::unexpected(
                    "authentication flow out of order",
                    "the answer does not belong to the pending request".to_owned(),
                ),
            ),
        }
    }
}

/// An answer and the time at which it came.
pub struct M2mAnswer {
    pub now: int,
    pub event: M2mEventView,
}

/// The actions that a flow hands out, one for each of a series of answers.
pub open spec fn m2m_actions(
    flow: M2mFlowView,
    cache: CacheView,
    answers: Seq<M2mAnswer>,
) -> Seq<M2mActionView>
    decreases answers.len(),
{
    if answers.len() == 0 {
        Seq::empty()
    } else {
        let next = m2m_transition(flow, cache, answers[0].now, answers[0].event);
        seq![next.action] + m2m_actions(next.flow, next.cache, answers.drop_first())
    }
}

/// How many answers a flow in `stage` can still put to use.
pub open spec fn m2m_answers_left(stage: M2mStage) -> nat {
    match stage {
        M2mStage::AwaitingSatelliteToken => 3,
        M2mStage::AwaitingParty => 2,
        M2mStage::AwaitingCompany => 1,
        M2mStage::Finished => 0,
    }
}

/// A flow hands out one action for each answer.
pub proof fn lemma_one_action_for_each_answer(
    flow: M2mFlowView,
    cache: CacheView,
    answers: Seq<M2mAnswer>,
)
    ensures
        m2m_actions(flow, cache, answers).len() == answers.len(),
    decreases answers.len(),
{
    if answers.len() > 0 {
        let next = m2m_transition(flow, cache, answers[0].now, answers[0].event);
        lemma_one_action_for_each_answer(next.flow, next.cache, answers.drop_first());
    }
}

/// A flow that has ended stays ended: whatever answers still arrive, each is
/// met with a rejection, so that nobody is called and nothing is written. This
/// holds in particular of a request that was turned away at one of the first
/// three gates.
pub proof fn lemma_finished_flow_only_rejects(
    flow: M2mFlowView,
    cache: CacheView,
    answers: Seq<M2mAnswer>,
)
    requires
        flow.stage is Finished,
    ensures
        forall|step: int|
            0 <= step < answers.len() ==> {
                let action = #[trigger] m2m_actions(flow, cache, answers)[step];
                action is Rejected && !action.calls_satellite() && !action.writes()
            },
    decreases answers.len(),
{
    lemma_one_action_for_each_answer(flow, cache, answers);
    if answers.len() > 0 {
        let next = m2m_transition(flow, cache, answers[0].now, answers[0].event);
        lemma_finished_flow_only_rejects(next.flow, next.cache, answers.drop_first());
        lemma_one_action_for_each_answer(next.flow, next.cache, answers.drop_first());
        assert forall|step: int| 0 <= step < answers.len() implies {
            let action = #[trigger] m2m_actions(flow, cache, answers)[step];
            action is Rejected && !action.calls_satellite() && !action.writes()
        } by {
            if step > 0 {
                assert(m2m_actions(flow, cache, answers)[step] == m2m_actions(
                    next.flow,
                    next.cache,
                    answers.drop_first(),
                )[step - 1]);
            }
        }
    }
}

/// With the certificate gate switched on, a client whose certificate is not
/// among those that the satellite lists for it is answered with the status
/// 401, and its company is never written to the store: not at that answer,
/// and not at any that may still arrive.
pub proof fn lemma_certificate_mismatch_is_unauthorized_and_writes_nothing(
    flow: M2mFlowView,
    cache: CacheView,
    now: int,
    party: PartyInfoView,
    later: Seq<M2mAnswer>,
)
    requires
        flow.stage is AwaitingParty,
        flow.validate_certificate,
        certificate_binding(flow.certificate_chain, party.certificates) == Some(false),
    ensures
        ({
            let answers = seq![
                M2mAnswer { now, event: M2mEventView::PartyValidated { outcome: Ok(party) } },
            ] + later;
            let actions = m2m_actions(flow, cache, answers);
            &&& actions.len() == answers.len()
            &&& actions[0] == (M2mActionView::Rejected { error: certificate_mismatch_rejection() })
            &&& certificate_mismatch_rejection().status_code() == UNAUTHORIZED
            &&& forall|step: int| 0 <= step < actions.len() ==> !(#[trigger] actions[step]).writes()
        }),
{
    let first = M2mAnswer { now, event: M2mEventView::PartyValidated { outcome: Ok(party) } };
    let answers = seq![first] + later;
    let next = m2m_transition(flow, cache, now, first.event);
    assert(answers[0] == first);
    assert(answers.drop_first() =~= later);
    lemma_one_action_for_each_answer(flow, cache, answers);
    lemma_one_action_for_each_answer(next.flow, next.cache, later);
    lemma_finished_flow_only_rejects(next.flow, next.cache, later);
    let actions = m2m_actions(flow, cache, answers);
    assert forall|step: int| 0 <= step < actions.len() implies !(#[trigger] actions[step]).writes() by {
        if step > 0 {
            assert(actions[step] == m2m_actions(next.flow, next.cache, later)[step - 1]);
        }
    }
}

/// The store is asked for a company's record only where the satellite has
/// just vouched for the client and, with the certificate gate switched on,
/// lists the certificate of its assertion; and the record asked for is the
/// client's own, under the name that the satellite gives.
pub proof fn lemma_company_is_provisioned_only_for_a_vouched_client(
    flow: M2mFlowView,
    cache: CacheView,
    now: int,
    event: M2mEventView,
)
    requires
        m2m_transition(flow, cache, now, event).action is ProvisionCompany,
    ensures
        flow.stage is AwaitingParty,
        event matches M2mEventView::PartyValidated { outcome: Ok(party) } && {
            &&& flow.validate_certificate ==> certificate_binding(
                flow.certificate_chain,
                party.certificates,
            ) == Some(true)
            &&& m2m_transition(flow, cache, now, event).action == (M2mActionView::ProvisionCompany {
                external_id: flow.client_id,
                display_name: party.party_name,
            })
        },
{
}

/// A client is authenticated only by the answer of the store to the request
/// for its company's record, and as the company that the store names.
pub proof fn lemma_authenticated_only_by_the_store(
    flow: M2mFlowView,
    cache: CacheView,
    now: int,
    event: M2mEventView,
)
    requires
        m2m_transition(flow, cache, now, event).action is Authenticated,
    ensures
        flow.stage is AwaitingCompany,
        event matches M2mEventView::CompanyProvisioned { outcome: Ok(company_id) }
            && m2m_transition(flow, cache, now, event).action == (M2mActionView::Authenticated {
            company_id,
        }),
{
}

/// No gate defaults to acceptance: an answer that reports a failure, and an
/// answer that the flow was not waiting for, end the flow in a rejection.
pub proof fn lemma_failures_reject(flow: M2mFlowView, cache: CacheView, now: int, event: M2mEventView)
    requires
        match event {
            M2mEventView::SatelliteTokenExchanged { outcome } => outcome is Err || !(flow.stage
                is AwaitingSatelliteToken),
            M2mEventView::PartyValidated { outcome } => outcome is Err || !(flow.stage
                is AwaitingParty),
            M2mEventView::CompanyProvisioned { outcome } => outcome is Err || !(flow.stage
                is AwaitingCompany),
        },
    ensures
        m2m_transition(flow, cache, now, event).action is Rejected,
        m2m_transition(flow, cache, now, event).flow.stage is Finished,
        m2m_transition(flow, cache, now, event).cache == cache,
{
}

/// The cache is written only by the answer of the token endpoint that the
/// flow was waiting for, and then holds the token of that answer until its
/// lifetime, counted from the answer's arrival, has passed.
pub proof fn lemma_cache_is_written_only_by_the_exchange(
    flow: M2mFlowView,
    cache: CacheView,
    now: int,
    event: M2mEventView,
)
    ensures
        match (flow.stage, event) {
            (
                M2mStage::AwaitingSatelliteToken,
                M2mEventView::SatelliteTokenExchanged { outcome: Ok(response) },
            ) => m2m_transition(flow, cache, now, event).cache == filled(
                response.access_token,
                now + response.expires_in,
            ),
            _ => m2m_transition(flow, cache, now, event).cache == cache,
        },
{
}

/// Every answer that does not end a flow brings it one stage on, so that a
/// flow takes at most three answers, and every answer keeps the client and
/// the setting of the certificate gate.
pub proof fn lemma_each_answer_brings_the_flow_on(
    flow: M2mFlowView,
    cache: CacheView,
    now: int,
    event: M2mEventView,
)
    ensures
        ({
            let next = m2m_transition(flow, cache, now, event);
            &&& next.flow.client_id == flow.client_id
            &&& next.flow.certificate_chain == flow.certificate_chain
            &&& next.flow.validate_certificate == flow.validate_certificate
            &&& next.flow.now == flow.now
            &&& next.flow.stage is Finished <==> next.action.is_verdict()
            &&& !(next.flow.stage is Finished) ==> m2m_answers_left(next.flow.stage) + 1
                == m2m_answers_left(flow.stage)
        }),
{
}

/// Whether `event` is the satellite's vouching for the client of `flow`, with
/// the certificate of the client's assertion among those it lists where the
/// certificate gate is switched on.
pub open spec fn vouches_for(flow: M2mFlowView, event: M2mEventView) -> bool {
    event matches M2mEventView::PartyValidated { outcome: Ok(party) } && (flow.validate_certificate
        ==> certificate_binding(flow.certificate_chain, party.certificates) == Some(true))
}

/// Whether `event` is a token from the satellite's token endpoint.
pub open spec fn brings_token(event: M2mEventView) -> bool {
    event matches M2mEventView::SatelliteTokenExchanged { outcome: Ok(_) }
}

/// Whether `event` is the store's naming of the company that `action` authenticates.
pub open spec fn names_company(event: M2mEventView, action: M2mActionView) -> bool {
    event matches M2mEventView::CompanyProvisioned { outcome: Ok(company_id) } && action == (
    M2mActionView::Authenticated { company_id })
}

/// No authentication without every gate: wherever a flow hands out the
/// verdict that the client is authenticated, the answer just given was the
/// store's, naming the company; if the flow was still to ask the satellite
/// about the client, the satellite vouched for it in the answer before that
/// and, with the certificate gate switched on, listed the certificate of the
/// client's assertion; and if the flow was still to fetch the registry's own
/// token, the token endpoint gave one in the answer before that. No other
/// series of answers ends in that verdict.
pub proof fn lemma_authentication_passes_every_gate(
    flow: M2mFlowView,
    cache: CacheView,
    answers: Seq<M2mAnswer>,
    last: int,
)
    requires
        0 <= last < answers.len(),
        m2m_actions(flow, cache, answers)[last] is Authenticated,
    ensures
        last + 1 == m2m_answers_left(flow.stage),
        names_company(answers[last].event, m2m_actions(flow, cache, answers)[last]),
        last >= 1 ==> vouches_for(flow, answers[last - 1].event),
        last >= 2 ==> brings_token(answers[last - 2].event),
    decreases answers.len(),
{
    lemma_one_action_for_each_answer(flow, cache, answers);
    let next = m2m_transition(flow, cache, answers[0].now, answers[0].event);
    let rest = answers.drop_first();
    lemma_one_action_for_each_answer(next.flow, next.cache, rest);
    lemma_each_answer_brings_the_flow_on(flow, cache, answers[0].now, answers[0].event);
    if last == 0 {
        lemma_authenticated_only_by_the_store(flow, cache, answers[0].now, answers[0].event);
    } else {
        assert(m2m_actions(flow, cache, answers)[last] == m2m_actions(next.flow, next.cache, rest)[last
            - 1]);
        if next.flow.stage is Finished {
            lemma_finished_flow_only_rejects(next.flow, next.cache, rest);
        } else {
            lemma_authentication_passes_every_gate(next.flow, next.cache, rest, last - 1);
            assert(rest[last - 1] == answers[last]);
            if last >= 2 {
                assert(rest[last - 2] == answers[last - 1]);
            }
            if last >= 3 {
                assert(rest[last - 3] == answers[last - 2]);
            }
        }
    }
}

} // verus!
