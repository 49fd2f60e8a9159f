//! The registry's dealings with the trust framework, in one place: admitting
//! client assertions, keeping its own token for the satellite, and signing
//! what it issues.

use crate::assertion::{
    arguments_rejection, check_chain_verdict, check_decoding, check_request_arguments,
    invalid_assertion_rejection, previous_step, undecodable_assertion_rejection, verdict_of,
    ChainFailure, ChainVerdict, DecodedClientAssertion, PreviousStep,
};
use crate::error::{unexpected, AppError, AppErrorView, BAD_REQUEST};
use crate::framework::{
    addressee, can_sign, capabilities_in, carries_claims, chain_verdict, claims_audience,
    create_client_assertion, create_client_assertion_with_extra_claims, decode_token,
    delegation_evidence_in, header_chain, issued_at, issuer_of, read_header_chain, read_issued_at,
    read_satellite_eori, request_arguments_verdict, satellite_eori, validate_request_arguments,
    validate_token, ExtraClaims,
};
use crate::h2m::{h2m_start, H2mAction, H2mActionView, H2mFlow, H2mTransition};
use crate::idp::IdpConnector;
use crate::m2m::{
    lemma_authentication_passes_every_gate, lemma_finished_flow_only_rejects, m2m_actions,
    names_company, vouches_for, M2mAction, M2mActionView, M2mAnswer, M2mFlow, M2mFlowView,
    M2mStage,
};
use crate::party_lookup::{
    lookup_start, token_failure, PartyLookup, PartyLookupAction, PartyLookupActionView,
};
use crate::satellite_token::{
    cached_token, plan_exchange, signing_failure, token_in_force, TokenPlan, TokenPlanView,
};
use crate::token_cache::{CacheView, TokenCache};
use std::sync::Arc;
use vstd::prelude::*;

verus! {

/// The framework's verdict on the certificate chain of an assertion. A chain
/// without a single certificate in it counts as one that cannot be read.
pub open spec fn assertion_verdict(registry: ishare::ishare::ISHARE, token: Seq<char>) -> ChainVerdict {
    if header_chain(token) matches Some(chain) && chain.len() == 0 {
        ChainVerdict::Unreadable
    } else {
        chain_verdict(registry, token)
    }
}

/// Whether the second at which a token says it was issued leaves room for
/// the 30 seconds of its lifetime.
pub open spec fn issued_at_in_range(token: Seq<char>) -> bool {
    issued_at(token) matches Some(second) ==> second + 30 <= u64::MAX
}

/// Whether a token can be handed to the decoder at all: its chain, if it has
/// one, has a first certificate, and its time of issue is in range.
pub open spec fn decodable(token: Seq<char>) -> bool {
    &&& header_chain(token) matches Some(chain) ==> chain.len() > 0
    &&& issued_at_in_range(token)
}

/// Why a token that cannot be handed to the decoder is refused.
pub open spec fn undecodable_diagnostic(token: Seq<char>) -> Seq<char> {
    if header_chain(token) matches Some(chain) && chain.len() == 0 {
        "x5c header is empty"@
    } else {
        "issued at is out of range"@
    }
}

/// What holds of a token that was accepted, at `now`, as `client_id`'s own,
/// addressed to `audience` where one was asked for: it names `client_id` as
/// its issuer and the audience as its addressee, it was issued no later than
/// `now`, and its header carries a chain with a first certificate.
pub open spec fn presented_by(
    token: Seq<char>,
    client_id: Seq<char>,
    audience: Option<Seq<char>>,
    now: int,
) -> bool {
    &&& issuer_of(token) == Some(client_id)
    &&& audience matches Some(expected) ==> addressee(token) == Some(expected)
    &&& issued_at(token) matches Some(second) && second <= now
    &&& header_chain(token) matches Some(chain) && chain.len() > 0
}

/// What holds of the assertion that decoding a token as `client_id`'s own
/// returned: it repeats what the token says.
pub open spec fn bound_to(
    assertion: DecodedClientAssertion,
    token: Seq<char>,
    client_id: Seq<char>,
    audience: Option<Seq<char>>,
) -> bool {
    &&& assertion.issuer@ == client_id
    &&& assertion.subject@ == client_id
    &&& audience matches Some(expected) ==> assertion.audience@ == expected
    &&& assertion@.certificate_chain == header_chain(token)
}

/// The audience asked for, as mathematics.
pub open spec fn asked_for(audience: Option<&str>) -> Option<Seq<char>> {
    match audience {
        Some(expected) => Some(expected@),
        None => None,
    }
}

/// Whether `error` is the rejection of an assertion that would not decode,
/// whatever the decoder's diagnostic.
pub open spec fn is_undecodable_rejection(error: AppErrorView) -> bool {
    error matches AppErrorView::Expected(rejection) && rejection.status_code == BAD_REQUEST
        && rejection.message == "client assertion is invalid"@ && rejection.metadata is None
}

/// Whether `error` is a failure of a collaborator, met while doing `context`.
pub open spec fn is_failure_while(error: AppErrorView, context: Seq<char>) -> bool {
    error matches AppErrorView::Unexpected(failure) && failure.context == context
}

/// Whether `action` is the rejection after a failure of a collaborator, met
/// while doing `context`.
pub open spec fn rejects_while(action: M2mActionView, context: Seq<char>) -> bool {
    action matches M2mActionView::Rejected { error } && is_failure_while(error, context)
}

/// Whether `error` is the rejection of a token without a readable chain:
/// with the library's own reason where the library found the chain empty,
/// and with the outside diagnostic, whatever it is, otherwise.
pub open spec fn is_unreadable_refusal_of(error: AppErrorView, token: Seq<char>) -> bool {
    if header_chain(token) matches Some(chain) && chain.len() == 0 {
        error == undecodable_assertion_rejection("x5c header is empty"@)
    } else {
        is_undecodable_rejection(error)
    }
}

/// Whether `error` is the rejection of a token that would not decode: with
/// the library's own reason where the library found that the token cannot be
/// handed to the decoder, and with the outside diagnostic, whatever it is,
/// otherwise.
pub open spec fn is_refusal_of(error: AppErrorView, token: Seq<char>) -> bool {
    if decodable(token) {
        is_undecodable_rejection(error)
    } else {
        error == undecodable_assertion_rejection(undecodable_diagnostic(token))
    }
}

/// What the first three gates, passed at `now`, make of a request, as far as
/// it is decided by the request itself: which gate turns it away, and with
/// what; and what holds of a request that is admitted.
///
/// Whether an assertion that the framework vouches for also decodes depends
/// on the clock, so of such a one that can be handed to the decoder only the
/// shape of the refusal is fixed. An admitted assertion is the client's own:
/// issued by the client, addressed to the client, and issued no later than `now`.
pub open spec fn admission_rules(
    registry: ishare::ishare::ISHARE,
    now: int,
    client_id: Seq<char>,
    grant_type: Seq<char>,
    client_assertion: Seq<char>,
    client_assertion_type: Seq<char>,
    scope: Seq<char>,
    admitted: Result<DecodedClientAssertion, AppError>,
) -> bool {
    match request_arguments_verdict(grant_type, client_assertion_type, scope) {
        Err(message) => admitted matches Err(error) && error@ == arguments_rejection(message),
        Ok(_) => match assertion_verdict(registry, client_assertion) {
            ChainVerdict::Refused => admitted matches Err(error) && error@
                == invalid_assertion_rejection(),
            ChainVerdict::Unreadable => admitted matches Err(error) && is_unreadable_refusal_of(
                error@,
                client_assertion,
            ),
            ChainVerdict::Unchecked => admitted matches Err(error) && is_failure_while(
                error@,
                "Error validating client assertion"@,
            ),
            ChainVerdict::Vouched => match admitted {
                Ok(assertion) => {
                    &&& decodable(client_assertion)
                    &&& presented_by(client_assertion, client_id, Some(client_id), now)
                    &&& bound_to(assertion, client_assertion, client_id, Some(client_id))
                },
                Err(error) => is_refusal_of(error@, client_assertion),
            },
        },
    }
}

/// Whether an assertion is one that the registry signed for its satellite.
pub open spec fn is_for_satellite(registry: ishare::ishare::ISHARE, client_assertion: Seq<char>) -> bool {
    addressee(client_assertion) == Some(satellite_eori(registry))
}

/// Whether `action` sends the caller to the satellite's token endpoint with
/// an assertion that the registry signed for the satellite.
pub open spec fn asks_for_token(registry: ishare::ishare::ISHARE, action: M2mActionView) -> bool {
    action matches M2mActionView::ExchangeSatelliteToken { client_assertion } && is_for_satellite(
        registry,
        client_assertion,
    )
}

/// What the start of an authentication leads to once the assertion was
/// admitted: the flow holds the chain that the assertion presented, and goes
/// straight to the satellite with the cached token while that counts, and to
/// the token endpoint first once it does not. An admitted assertion is the
/// client's own.
pub open spec fn admitted_start(
    registry: ishare::ishare::ISHARE,
    flow: M2mFlowView,
    action: M2mActionView,
    cache: CacheView,
    now: int,
    client_id: Seq<char>,
    client_assertion: Seq<char>,
) -> bool {
    &&& decodable(client_assertion)
    &&& presented_by(client_assertion, client_id, Some(client_id), now)
    &&& flow.certificate_chain == header_chain(client_assertion)
    &&& match token_in_force(cache, now) {
        Some(bearer_token) => {
            &&& flow.stage is AwaitingParty
            &&& action == (M2mActionView::ValidateParty { eori: client_id, bearer_token, now })
        },
        None => {
            ||| flow.stage is AwaitingSatelliteToken && asks_for_token(registry, action)
            ||| flow.stage is Finished && rejects_while(action, "Error creating client assertion"@)
        },
    }
}

/// Whether `action` is the rejection of a token that would not decode.
pub open spec fn rejects_as_refusal_of(action: M2mActionView, token: Seq<char>) -> bool {
    action matches M2mActionView::Rejected { error } && is_refusal_of(error, token)
}

/// Whether `action` is the rejection of a token without a readable chain.
pub open spec fn rejects_as_unreadable(action: M2mActionView, token: Seq<char>) -> bool {
    action matches M2mActionView::Rejected { error } && is_unreadable_refusal_of(error, token)
}

/// What the start of an authentication leads to, as far as it is decided by
/// the request and the cache.
pub open spec fn start_rules(
    registry: ishare::ishare::ISHARE,
    cache: CacheView,
    now: int,
    client_id: Seq<char>,
    grant_type: Seq<char>,
    client_assertion: Seq<char>,
    client_assertion_type: Seq<char>,
    scope: Seq<char>,
    flow: M2mFlowView,
    action: M2mActionView,
) -> bool {
    match request_arguments_verdict(grant_type, client_assertion_type, scope) {
        Err(message) => flow.stage is Finished && action == (M2mActionView::Rejected {
            error: arguments_rejection(message),
        }),
        Ok(_) => match assertion_verdict(registry, client_assertion) {
            ChainVerdict::Refused => flow.stage is Finished && action == (M2mActionView::Rejected {
                error: invalid_assertion_rejection(),
            }),
            ChainVerdict::Unreadable => flow.stage is Finished && rejects_as_unreadable(
                action,
                client_assertion,
            ),
            ChainVerdict::Unchecked => flow.stage is Finished && rejects_while(
                action,
                "Error validating client assertion"@,
            ),
            ChainVerdict::Vouched => {
                ||| flow.stage is Finished && rejects_as_refusal_of(action, client_assertion)
                ||| admitted_start(registry, flow, action, cache, now, client_id, client_assertion)
            },
        },
    }
}

/// What signing leads to: the token, or a failure that is nobody's in particular.
pub fn signing_outcome(signed: Result<String, String>, context: &str) -> (token: Result<
    String,
    AppError,
>)
    ensures
        match signed {
            Ok(text) => token matches Ok(same) && same@ == text@,
            Err(cause) => token matches Err(error) && error@ == unexpected(context@, cause@),
        },
{
    match signed {
        Ok(text) => Ok(text),
        Err(cause) => Err(AppError::unexpected(context, cause)),
    }
}

/// The registry as a party of the trust framework.
pub struct ISHAREProvider {
    ishare: Arc<ishare::ishare::ISHARE>,
    idp_connector: IdpConnector,
}

impl ISHAREProvider {
    /// The identity that the provider acts under.
    pub closed spec fn registry(&self) -> ishare::ishare::ISHARE {
        *self.ishare
    }

    /// The identity provider that the provider sends people to.
    pub closed spec fn idp_connector(&self) -> IdpConnector {
        self.idp_connector
    }

    /// Whether the provider can sign, which is asked of it wherever it has to.
    pub open spec fn wf(&self) -> bool {
        can_sign(self.registry())
    }

    pub fn new(ishare: Arc<ishare::ishare::ISHARE>, idp_connector: &IdpConnector) -> (provider:
        ISHAREProvider)
        ensures
            provider.registry() == *ishare,
            provider.idp_connector().idp_url@ == idp_connector.idp_url@,
            provider.idp_connector().client_eori@ == idp_connector.client_eori@,
            provider.idp_connector().idp_eori@ == idp_connector.idp_eori@,
    {
        ISHAREProvider { ishare, idp_connector: idp_connector.clone() }
    }

    /// Wraps delegation evidence into a token signed by the registry and
    /// addressed to `audience`. The evidence is signed as it is.
    pub fn create_delegation_token(
        &self,
        audience: &str,
        de_container: &ishare::delegation_evidence::DelegationEvidenceContainer,
    ) -> (token: Result<String, AppError>)
        requires
            self.wf(),
        ensures
            match token {
                Ok(signed) => addressee(signed@) == Some(audience@) && delegation_evidence_in(
                    signed@,
                ) == Some(*de_container),
                Err(error) => is_failure_while(error@, "Error creating delegation token"@),
            },
    {
        let signed = create_client_assertion_with_extra_claims(
            &self.ishare,
            audience,
            ExtraClaims::DelegationEvidence(de_container),
        );
        signing_outcome(signed, "Error creating delegation token")
    }

    /// Wraps the registry's description of itself into a token signed by the
    /// registry and addressed to `audience`.
    pub fn create_capabilities_token(
        &self,
        audience: &str,
        capabilities: &ishare::ishare::Capabilities,
    ) -> (token: Result<String, AppError>)
        requires
            self.wf(),
        ensures
            match token {
                Ok(signed) => addressee(signed@) == Some(audience@) && capabilities_in(signed@)
                    == Some(*capabilities),
                Err(error) => is_failure_while(error@, "Error creating capabilities token"@),
            },
    {
        let signed = create_client_assertion_with_extra_claims(
            &self.ishare,
            audience,
            ExtraClaims::Capabilities(capabilities),
        );
        signing_outcome(signed, "Error creating capabilities token")
    }

    /// Says how the registry comes by a bearer token for the satellite at
    /// `now`: from the cache while the cached one counts, and otherwise by an
    /// exchange, for which the assertion is signed here.
    pub fn get_satellite_token(&self, cache: &TokenCache, now: i64) -> (plan: TokenPlan)
        requires
            self.wf(),
        ensures
            match token_in_force(cache@, now as int) {
                Some(access_token) => plan@ == (TokenPlanView::Cached { access_token }),
                None => match plan@ {
                    TokenPlanView::Exchange { client_assertion } => is_for_satellite(
                        self.registry(),
                        client_assertion,
                    ),
                    TokenPlanView::Failed { error } => is_failure_while(
                        error,
                        "Error creating client assertion"@,
                    ),
                    TokenPlanView::Cached { .. } => false,
                },
            },
    {
        match cached_token(cache, now) {
            Some(access_token) => TokenPlan::Cached { access_token },
            None => {
                let satellite = read_satellite_eori(&self.ishare);
                plan_exchange(create_client_assertion(&self.ishare, satellite.as_str()))
            },
        }
    }

    /// Starts asking the satellite, at `now`, whether it knows `eori` as an
    /// active party: with the cached token while that counts, and after an
    /// exchange once it does not.
    pub fn validate_party(&self, cache: &TokenCache, now: i64, eori: &str) -> (start: (
        PartyLookup,
        PartyLookupAction,
    ))
        requires
            self.wf(),
        ensures
            start.0@.eori == eori@,
            start.0@.now == now,
            match token_in_force(cache@, now as int) {
                Some(access_token) => (start.0@, start.1@) == lookup_start(
                    eori@,
                    now as int,
                    TokenPlanView::Cached { access_token },
                ),
                None => match start.1@ {
                    PartyLookupActionView::ExchangeSatelliteToken { client_assertion } => {
                        start.0@.stage is AwaitingSatelliteToken && is_for_satellite(
                            self.registry(),
                            client_assertion,
                        )
                    },
                    PartyLookupActionView::Failed { error } => start.0@.stage is Finished
                        && exists|cause: Seq<char>|
                        error == #[trigger] token_failure(signing_failure(cause)),
                    _ => false,
                },
            },
    {
        let plan = self.get_satellite_token(cache, now);
        proof {
            if let TokenPlanView::Failed { error } = plan@ {
                if let AppErrorView::Unexpected(failure) = error {
                    assert(token_failure(error) == token_failure(signing_failure(failure.cause)));
                }
            }
        }
        PartyLookup::start(eori, now, plan)
    }

    /// Asks the framework whether it vouches for the certificate chain of an assertion.
    pub fn validate_token(&self, client_assertion: &str) -> (verdict: Result<bool, ChainFailure>)
        ensures
            verdict_of(verdict) == assertion_verdict(self.registry(), client_assertion@),
            header_chain(client_assertion@) matches Some(chain) && chain.len() == 0 ==> (
            verdict matches Err(ChainFailure::Unreadable(diagnostic)) && diagnostic@
                == "x5c header is empty"@),
    {
        let chain = read_header_chain(client_assertion);
        let empty = match &chain {
            Some(entries) => entries.len() == 0,
            None => false,
        };
        if empty {
            return Err(ChainFailure::Unreadable("x5c header is empty".to_owned()));
        }
        let token = client_assertion.to_owned();
        validate_token(&self.ishare, &token)
    }

    /// Decodes an assertion at `now` as `client_id`'s own, addressed to
    /// `audience`, or to the registry where none is given.
    ///
    /// An assertion that cannot be handed to the decoder is refused here.
    pub fn decode_token(
        &self,
        now: i64,
        client_assertion: &str,
        client_id: &str,
        audience: Option<&str>,
    ) -> (decoded: Result<DecodedClientAssertion, String>)
        ensures
            !decodable(client_assertion@) ==> (decoded matches Err(diagnostic) && diagnostic@
                == undecodable_diagnostic(client_assertion@)),
            decoded matches Ok(assertion) ==> bound_to(
                assertion,
                client_assertion@,
                client_id@,
                asked_for(audience),
            ),
            decoded is Ok ==> presented_by(
                client_assertion@,
                client_id@,
                asked_for(audience),
                now as int,
            ),
    {
        let chain = read_header_chain(client_assertion);
        let empty = match &chain {
            Some(entries) => entries.len() == 0,
            None => false,
        };
        if empty {
            return Err("x5c header is empty".to_owned());
        }
        let out_of_range = match read_issued_at(client_assertion) {
            Some(second) => second > u64::MAX - 30,
            None => false,
        };
        if out_of_range {
            return Err("issued at is out of range".to_owned());
        }
        decode_token(&self.ishare, now, client_assertion, client_id, audience)
    }

    /// The first three gates of the authentication of a machine client, in
    /// their order: the fixed arguments, the certificate chain, and the
    /// decoding of the assertion as issued by the client and addressed to it.
    ///
    /// Nobody but the framework's library is called.
    pub fn admit_client_assertion(
        &self,
        now: i64,
        client_id: &str,
        grant_type: &str,
        client_assertion: &str,
        client_assertion_type: &str,
        scope: &str,
    ) -> (admitted: Result<DecodedClientAssertion, AppError>)
        ensures
            admission_rules(
                self.registry(),
                now as int,
                client_id@,
                grant_type@,
                client_assertion@,
                client_assertion_type@,
                scope@,
                admitted,
            ),
    {
        let arguments = validate_request_arguments(grant_type, client_assertion_type, scope);
        match check_request_arguments(arguments) {
            Err(error) => {
                return Err(error);
            },
            Ok(_) => {},
        }
        match check_chain_verdict(self.validate_token(client_assertion)) {
            Err(error) => {
                return Err(error);
            },
            Ok(_) => {},
        }
        check_decoding(self.decode_token(now, client_assertion, client_id, Some(client_id)))
    }

    /// Starts the authentication of a machine client at `now`.
    ///
    /// The request passes the first three gates here; what comes back is the
    /// rejection, or the flow with its first request to the satellite. A
    /// request that is turned away has caused no call to the satellite and no
    /// write to the store.
    pub fn handle_m2m_authentication(
        &self,
        cache: &TokenCache,
        now: i64,
        client_id: &str,
        grant_type: &str,
        client_assertion: &str,
        client_assertion_type: &str,
        scope: &str,
        validate_certificate: bool,
    ) -> (start: (M2mFlow, M2mAction))
        requires
            self.wf(),
        ensures
            start.0@.client_id == client_id@,
            start.0@.validate_certificate == validate_certificate,
            start.0@.now == now,
            start.1@ is Rejected || start.1@.calls_satellite(),
            start.1@ is Rejected <==> start.0@.stage is Finished,
            start_rules(
                self.registry(),
                cache@,
                now as int,
                client_id@,
                grant_type@,
                client_assertion@,
                client_assertion_type@,
                scope@,
                start.0@,
                start.1@,
            ),
    {
        let admitted = self.admit_client_assertion(
            now,
            client_id,
            grant_type,
            client_assertion,
            client_assertion_type,
            scope,
        );
        let assertion = match admitted {
            Ok(assertion) => assertion,
            Err(error) => {
                return (
                    M2mFlow::turned_away(client_id, validate_certificate, now),
                    M2mAction::Rejected { error },
                );
            },
        };
        match self.get_satellite_token(cache, now) {
            TokenPlan::Cached { access_token } => (
                M2mFlow::admitted(
                    M2mStage::AwaitingParty,
                    client_id,
                    assertion,
                    validate_certificate,
                    now,
                ),
                M2mAction::ValidateParty {
                    eori: client_id.to_owned(),
                    bearer_token: access_token,
                    now,
                },
            ),
            TokenPlan::Exchange { client_assertion } => (
                M2mFlow::admitted(
                    M2mStage::AwaitingSatelliteToken,
                    client_id,
                    assertion,
                    validate_certificate,
                    now,
                ),
                M2mAction::ExchangeSatelliteToken { client_assertion },
            ),
            TokenPlan::Failed { error } => (
                M2mFlow::admitted(
                    M2mStage::Finished,
                    client_id,
                    assertion,
                    validate_certificate,
                    now,
                ),
                M2mAction::Rejected { error },
            ),
        }
    }

    /// Signs the claims of a login request for the identity provider. The
    /// signed request is what the person is sent to the identity provider with.
    pub fn handle_h2m_redirect_url_request(&self, auth_claims: &Vec<(String, String)>) -> (request:
        Result<String, AppError>)
        requires
            self.wf(),
        ensures
            match request {
                Ok(signed) => {
                    &&& claims_audience(auth_claims@) || addressee(signed@) == Some(
                        self.idp_connector().idp_eori@,
                    )
                    &&& carries_claims(signed@, auth_claims@)
                },
                Err(error) => is_failure_while(error@, "Error creating client assertion"@),
            },
    {
        let signed = create_client_assertion_with_extra_claims(
            &self.ishare,
            self.idp_connector.idp_eori.as_str(),
            ExtraClaims::AuthRequest(auth_claims),
        );
        signing_outcome(signed, "Error creating client assertion")
    }

    /// Starts what follows a person's return from the identity provider with
    /// `code`: the registry signs an assertion for the identity provider, and
    /// the code is to be exchanged with it.
    pub fn handle_h2m_auth_callback(&self, server_url: &str, code: &str) -> (start: (
        H2mFlow,
        H2mAction,
    ))
        requires
            self.wf(),
        ensures
            exists|signed: Result<Seq<char>, Seq<char>>|
                (H2mTransition { flow: start.0@, action: start.1@ }) == #[trigger] h2m_start(
                    self.idp_connector().idp_eori@,
                    self.idp_connector().idp_url@,
                    server_url@,
                    code@,
                    signed,
                ),
            start.1@ matches H2mActionView::FetchIdToken { client_assertion, .. } ==> addressee(
                client_assertion,
            ) == Some(self.idp_connector().idp_eori@),
    {
        let signed = create_client_assertion(&self.ishare, self.idp_connector.idp_eori.as_str());
        let ghost outcome = crate::h2m::texts(signed);
        let start = H2mFlow::start(
            self.idp_connector.idp_eori.as_str(),
            self.idp_connector.idp_url.as_str(),
            server_url,
            code,
            signed,
        );
        assert((H2mTransition { flow: start.0@, action: start.1@ }) == h2m_start(
            self.idp_connector().idp_eori@,
            self.idp_connector().idp_url@,
            server_url@,
            code@,
            outcome,
        ));
        start
    }

    /// Probes whether a previous step of a transaction vouches for the
    /// requestor, and says what each of the two decodings came to: the
    /// assertion is decoded at `now` as the requestor's own, once as
    /// addressed to the policy issuer and once as addressed to the access
    /// subject, and either is enough.
    ///
    /// The probe advises; it never fails. Whatever goes wrong with a decoding
    /// counts as that decoding saying no, and is handed back for the record.
    pub fn probe_previous_step(
        &self,
        now: i64,
        requestor_company_id: &str,
        client_assertion: &str,
        policy_issuer: &str,
        access_subject: &str,
    ) -> (probe: PreviousStep)
        ensures
            probe.inherited == (probe.policy_issuer_refusal is None
                || probe.access_subject_refusal is None),
            probe.policy_issuer_refusal is None ==> presented_by(
                client_assertion@,
                requestor_company_id@,
                Some(policy_issuer@),
                now as int,
            ),
            probe.access_subject_refusal is None ==> presented_by(
                client_assertion@,
                requestor_company_id@,
                Some(access_subject@),
                now as int,
            ),
            !decodable(client_assertion@) ==> probe@ == refused_twice(
                undecodable_diagnostic(client_assertion@),
            ),
    {
        let for_policy_issuer = self.decode_token(
            now,
            client_assertion,
            requestor_company_id,
            Some(policy_issuer),
        );
        let for_access_subject = self.decode_token(
            now,
            client_assertion,
            requestor_company_id,
            Some(access_subject),
        );
        previous_step(for_policy_issuer, for_access_subject)
    }

    /// Whether a previous step of a transaction vouches for the requestor:
    /// the answer of [`ISHAREProvider::probe_previous_step`] alone.
    ///
    /// Trust is inherited only from an assertion that the requestor issued,
    /// no later than `now`, to the policy issuer or to the access subject.
    pub fn handle_previous_step_client_assertion(
        &self,
        now: i64,
        requestor_company_id: &str,
        client_assertion: &str,
        policy_issuer: &str,
        access_subject: &str,
    ) -> (inherited: bool)
        ensures
            !decodable(client_assertion@) ==> !inherited,
            inherited ==> issuer_of(client_assertion@) == Some(requestor_company_id@),
            inherited ==> (issued_at(client_assertion@) matches Some(second) && second <= now),
            inherited ==> addressee(client_assertion@) == Some(policy_issuer@) || addressee(
                client_assertion@,
            ) == Some(access_subject@),
    {
        self.probe_previous_step(
            now,
            requestor_company_id,
            client_assertion,
            policy_issuer,
            access_subject,
        ).inherited
    }
}

/// A request ends authenticated only if it passed every gate: its fixed
/// arguments were the supported ones, the framework vouched for the chain of
/// its assertion, the assertion was the client's own (issued by the client,
/// addressed to the client, issued no later than the time of the request),
/// the satellite vouched for the client and, with the certificate gate
/// switched on, listed the first certificate of the chain that the assertion
/// presented, and the store named the company. This holds of whatever the
/// start of the authentication returned and of every series of answers given
/// to the flow after it.
pub proof fn lemma_authenticated_request_passed_every_gate(
    registry: ishare::ishare::ISHARE,
    cache: CacheView,
    now: int,
    client_id: Seq<char>,
    grant_type: Seq<char>,
    client_assertion: Seq<char>,
    client_assertion_type: Seq<char>,
    scope: Seq<char>,
    flow: M2mFlowView,
    action: M2mActionView,
    answers: Seq<M2mAnswer>,
    last: int,
)
    requires
        start_rules(
            registry,
            cache,
            now,
            client_id,
            grant_type,
            client_assertion,
            client_assertion_type,
            scope,
            flow,
            action,
        ),
        0 <= last < answers.len(),
        m2m_actions(flow, cache, answers)[last] is Authenticated,
    ensures
        request_arguments_verdict(grant_type, client_assertion_type, scope) is Ok,
        assertion_verdict(registry, client_assertion) is Vouched,
        decodable(client_assertion),
        presented_by(client_assertion, client_id, Some(client_id), now),
        flow.certificate_chain == header_chain(client_assertion),
        last >= 1,
        vouches_for(flow, answers[last - 1].event),
        names_company(answers[last].event, m2m_actions(flow, cache, answers)[last]),
{
    if flow.stage is Finished {
        lemma_finished_flow_only_rejects(flow, cache, answers);
    } else {
        lemma_authentication_passes_every_gate(flow, cache, answers, last);
    }
}

/// An assertion that is not the client's own is turned away at the start,
/// though the framework vouches for its chain: where it names another party
/// as its issuer or as its addressee, or a time of issue after the time of
/// the request, the start of the authentication returns the client's
/// rejection with the status 400; the satellite is not called and the store
/// is not written to, neither at the start nor after any answer that may
/// still be given to the flow.
pub proof fn lemma_assertion_of_another_party_is_turned_away(
    registry: ishare::ishare::ISHARE,
    cache: CacheView,
    now: int,
    client_id: Seq<char>,
    grant_type: Seq<char>,
    client_assertion: Seq<char>,
    client_assertion_type: Seq<char>,
    scope: Seq<char>,
    flow: M2mFlowView,
    action: M2mActionView,
    answers: Seq<M2mAnswer>,
)
    requires
        start_rules(
            registry,
            cache,
            now,
            client_id,
            grant_type,
            client_assertion,
            client_assertion_type,
            scope,
            flow,
            action,
        ),
        request_arguments_verdict(grant_type, client_assertion_type, scope) is Ok,
        assertion_verdict(registry, client_assertion) is Vouched,
        ({
            ||| issuer_of(client_assertion) != Some(client_id)
            ||| addressee(client_assertion) != Some(client_id)
            ||| !(issued_at(client_assertion) matches Some(second) && second <= now)
        }),
    ensures
        action matches M2mActionView::Rejected { error } && is_undecodable_rejection(error)
            && error.status_code() == BAD_REQUEST,
        !action.calls_satellite() && !action.writes(),
        forall|step: int|
            0 <= step < answers.len() ==> {
                let later = #[trigger] m2m_actions(flow, cache, answers)[step];
                later is Rejected && !later.calls_satellite() && !later.writes()
            },
{
    lemma_finished_flow_only_rejects(flow, cache, answers);
}

/// A request whose grant type, assertion type or scope is not the supported
/// one is answered with the status 400 and the framework's message, whatever
/// its assertion is worth; the satellite is not called and the store is not
/// written to, neither at the start nor after any answer that may still be
/// given to the flow.
pub proof fn lemma_unsupported_arguments_reject_without_a_call(
    registry: ishare::ishare::ISHARE,
    cache: CacheView,
    now: int,
    client_id: Seq<char>,
    grant_type: Seq<char>,
    client_assertion: Seq<char>,
    client_assertion_type: Seq<char>,
    scope: Seq<char>,
    flow: M2mFlowView,
    action: M2mActionView,
    answers: Seq<M2mAnswer>,
)
    requires
        start_rules(
            registry,
            cache,
            now,
            client_id,
            grant_type,
            client_assertion,
            client_assertion_type,
            scope,
            flow,
            action,
        ),
        grant_type != "client_credentials"@ || client_assertion_type
            != "urn:ietf:params:oauth:client-assertion-type:jwt-bearer"@ || scope != "iSHARE"@,
    ensures
        action matches M2mActionView::Rejected { error } && error.status_code() == BAD_REQUEST
            && error is Expected,
        !action.calls_satellite() && !action.writes(),
        forall|step: int|
            0 <= step < answers.len() ==> {
                let later = #[trigger] m2m_actions(flow, cache, answers)[step];
                later is Rejected && !later.calls_satellite() && !later.writes()
            },
{
    lemma_finished_flow_only_rejects(flow, cache, answers);
}

/// An assertion that the framework does not vouch for is rejected before the
/// satellite is called: the start of the authentication returns the
/// rejection, and no answer that may still be given to the flow leads to a
/// call or to a write. Where the chain was found bad, or where the assertion
/// is no token with a readable chain at all, the rejection is the client's,
/// with the status 400.
pub proof fn lemma_unvouched_assertion_rejects_without_a_call(
    registry: ishare::ishare::ISHARE,
    cache: CacheView,
    now: int,
    client_id: Seq<char>,
    grant_type: Seq<char>,
    client_assertion: Seq<char>,
    client_assertion_type: Seq<char>,
    scope: Seq<char>,
    flow: M2mFlowView,
    action: M2mActionView,
    answers: Seq<M2mAnswer>,
)
    requires
        start_rules(
            registry,
            cache,
            now,
            client_id,
            grant_type,
            client_assertion,
            client_assertion_type,
            scope,
            flow,
            action,
        ),
        !(assertion_verdict(registry, client_assertion) is Vouched),
    ensures
        action matches M2mActionView::Rejected { error } && (assertion_verdict(
            registry,
            client_assertion,
        ) is Refused || assertion_verdict(registry, client_assertion) is Unreadable ==> error
            is Expected && error.status_code() == BAD_REQUEST),
        !action.calls_satellite() && !action.writes(),
        forall|step: int|
            0 <= step < answers.len() ==> {
                let later = #[trigger] m2m_actions(flow, cache, answers)[step];
                later is Rejected && !later.calls_satellite() && !later.writes()
            },
{
    lemma_finished_flow_only_rejects(flow, cache, answers);
}

/// What a probe of a token that cannot be handed to the decoder comes to:
/// both decodings refused, for the one reason.
pub open spec fn refused_twice(diagnostic: Seq<char>) -> crate::assertion::PreviousStepView {
    crate::assertion::PreviousStepView {
        inherited: false,
        policy_issuer_refusal: Some(diagnostic),
        access_subject_refusal: Some(diagnostic),
    }
}

} // verus!
