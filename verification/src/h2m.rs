//! Logging a person in through the identity provider: the signed request
//! that sends the person there, and what follows once the person is back
//! with a code.
//!
//! As with machine clients, the library decides and its caller does the
//! asking: a flow hands out one request at a time and takes the answer.

use crate::error::{unexpected, AppError, AppErrorView};
use vstd::prelude::*;

verus! {

/// What the identity provider says of the person who logged in.
#[derive(Debug, Clone, PartialEq, Eq)]
pub struct IdentityClaims {
    pub subject: String,
    pub company_id: String,
    pub company_name: String,
    pub email: String,
    pub first_name: String,
    pub last_name: String,
    pub realm_access_roles: Vec<String>,
}

pub struct IdentityClaimsView {
    pub subject: Seq<char>,
    pub company_id: Seq<char>,
    pub company_name: Seq<char>,
    pub email: Seq<char>,
    pub first_name: Seq<char>,
    pub last_name: Seq<char>,
    pub realm_access_roles: Seq<Seq<char>>,
}

impl View for IdentityClaims {
    type V = IdentityClaimsView;

    open spec fn view(&self) -> IdentityClaimsView {
        IdentityClaimsView {
            subject: self.subject@,
            company_id: self.company_id@,
            company_name: self.company_name@,
            email: self.email@,
            first_name: self.first_name@,
            last_name: self.last_name@,
            realm_access_roles: self.realm_access_roles.deep_view(),
        }
    }
}

impl IdentityClaimsView {
    /// The person's name in full: first name, a blank, last name.
    pub open spec fn fullname(self) -> Seq<char> {
        self.first_name + " "@ + self.last_name
    }
}

/// The person who logged in, as the registry knows them from then on.
#[derive(Debug, Clone, PartialEq, Eq)]
pub struct UserOption {
    pub user_id: String,
    pub realm_access_roles: Vec<String>,
}

pub struct UserOptionView {
    pub user_id: Seq<char>,
    pub realm_access_roles: Seq<Seq<char>>,
}

impl View for UserOption {
    type V = UserOptionView;

    open spec fn view(&self) -> UserOptionView {
        UserOptionView {
            user_id: self.user_id@,
            realm_access_roles: self.realm_access_roles.deep_view(),
        }
    }
}

/// What a login is waiting for, and what it has learnt so far.
#[derive(Debug)]
enum H2mState {
    AwaitingIdToken,
    AwaitingIdentity,
    AwaitingCompany { identity: IdentityClaims },
    AwaitingUser { company_id: String, realm_access_roles: Vec<String> },
    Finished,
}

pub enum H2mStateView {
    AwaitingIdToken,
    AwaitingIdentity,
    AwaitingCompany { identity: IdentityClaimsView },
    AwaitingUser { company_id: Seq<char>, realm_access_roles: Seq<Seq<char>> },
    Finished,
}

/// One login in progress.
#[derive(Debug)]
pub struct H2mFlow {
    state: H2mState,
    idp_eori: String,
    idp_url: String,
}

pub struct H2mFlowView {
    pub state: H2mStateView,
    pub idp_eori: Seq<char>,
    pub idp_url: Seq<char>,
}

impl View for H2mState {
    type V = H2mStateView;

    closed spec fn view(&self) -> H2mStateView {
        match self {
            H2mState::AwaitingIdToken => H2mStateView::AwaitingIdToken,
            H2mState::AwaitingIdentity => H2mStateView::AwaitingIdentity,
            H2mState::AwaitingCompany { identity } => H2mStateView::AwaitingCompany {
                identity: identity@,
            },
            H2mState::AwaitingUser { company_id, realm_access_roles } => H2mStateView::AwaitingUser {
                company_id: company_id@,
                realm_access_roles: realm_access_roles.deep_view(),
            },
            H2mState::Finished => H2mStateView::Finished,
        }
    }
}

impl View for H2mFlow {
    type V = H2mFlowView;

    closed spec fn view(&self) -> H2mFlowView {
        H2mFlowView { state: self.state@, idp_eori: self.idp_eori@, idp_url: self.idp_url@ }
    }
}

/// What the caller is asked to do next, or the outcome.
#[derive(Debug, Clone, PartialEq, Eq)]
pub enum H2mAction {
    /// Exchange the code for an identity token at the identity provider.
    FetchIdToken { server_url: String, code: String, client_assertion: String },
    /// Decode the identity token into what it says of the person.
    DecodeIdentity { id_token: String },
    /// Create the company's record unless there is one.
    ProvisionCompany { external_id: String, display_name: String },
    /// Create the person's record unless there is one.
    ProvisionUser {
        subject: String,
        email: String,
        fullname: String,
        company_id: String,
        idp_identifier: String,
        idp_url: String,
    },
    /// The person is logged in for this company.
    LoggedIn { company_id: String, user: UserOption },
    /// The person is not logged in.
    Rejected { error: AppError },
}

pub enum H2mActionView {
    FetchIdToken { server_url: Seq<char>, code: Seq<char>, client_assertion: Seq<char> },
    DecodeIdentity { id_token: Seq<char> },
    ProvisionCompany { external_id: Seq<char>, display_name: Seq<char> },
    ProvisionUser {
        subject: Seq<char>,
        email: Seq<char>,
        fullname: Seq<char>,
        company_id: Seq<char>,
        idp_identifier: Seq<char>,
        idp_url: Seq<char>,
    },
    LoggedIn { company_id: Seq<char>, user: UserOptionView },
    Rejected { error: AppErrorView },
}

impl View for H2mAction {
    type V = H2mActionView;

    open spec fn view(&self) -> H2mActionView {
        match self {
            H2mAction::FetchIdToken { server_url, code, client_assertion } => {
                H2mActionView::FetchIdToken {
                    server_url: server_url@,
                    code: code@,
                    client_assertion: client_assertion@,
                }
            },
            H2mAction::DecodeIdentity { id_token } => H2mActionView::DecodeIdentity {
                id_token: id_token@,
            },
            H2mAction::ProvisionCompany { external_id, display_name } => {
                H2mActionView::ProvisionCompany {
                    external_id: external_id@,
                    display_name: display_name@,
                }
            },
            H2mAction::ProvisionUser {
                subject,
                email,
                fullname,
                company_id,
                idp_identifier,
                idp_url,
            } => H2mActionView::ProvisionUser {
                subject: subject@,
                email: email@,
                fullname: fullname@,
                company_id: company_id@,
                idp_identifier: idp_identifier@,
                idp_url: idp_url@,
            },
            H2mAction::LoggedIn { company_id, user } => H2mActionView::LoggedIn {
                company_id: company_id@,
                user: user@,
            },
            H2mAction::Rejected { error } => H2mActionView::Rejected { error: error@ },
        }
    }
}

impl H2mActionView {
    /// Whether the action writes to the store.
    pub open spec fn writes(self) -> bool {
        self is ProvisionCompany || self is ProvisionUser
    }

    /// Whether the action ends the login.
    pub open spec fn is_verdict(self) -> bool {
        self is LoggedIn || self is Rejected
    }
}

/// The answer to the request a login handed out.
#[derive(Debug, PartialEq, Eq)]
#[allow(inconsistent_fields)]
pub enum H2mEvent {
    IdTokenFetched { outcome: Result<String, String> },
    IdentityDecoded { outcome: Result<IdentityClaims, String> },
    /// The identifier of the company's record, or why there is none.
    CompanyProvisioned { outcome: Result<String, String> },
    /// The identifier of the person's record, or why there is none.
    UserProvisioned { outcome: Result<String, String> },
}

#[allow(inconsistent_fields)]
pub enum H2mEventView {
    IdTokenFetched { outcome: Result<Seq<char>, Seq<char>> },
    IdentityDecoded { outcome: Result<IdentityClaimsView, Seq<char>> },
    CompanyProvisioned { outcome: Result<Seq<char>, Seq<char>> },
    UserProvisioned { outcome: Result<Seq<char>, Seq<char>> },
}

/// The text of an outcome that is a text either way.
pub open spec fn texts(outcome: Result<String, String>) -> Result<Seq<char>, Seq<char>> {
    match outcome {
        Ok(text) => Ok(text@),
        Err(cause) => Err(cause@),
    }
}

impl View for H2mEvent {
    type V = H2mEventView;

    open spec fn view(&self) -> H2mEventView {
        match self {
            H2mEvent::IdTokenFetched { outcome } => H2mEventView::IdTokenFetched {
                outcome: texts(*outcome),
            },
            H2mEvent::IdentityDecoded { outcome } => H2mEventView::IdentityDecoded {
                outcome: match outcome {
                    Ok(identity) => Ok(identity@),
                    Err(cause) => Err(cause@),
                },
            },
            H2mEvent::CompanyProvisioned { outcome } => H2mEventView::CompanyProvisioned {
                outcome: texts(*outcome),
            },
            H2mEvent::UserProvisioned { outcome } => H2mEventView::UserProvisioned {
                outcome: texts(*outcome),
            },
        }
    }
}

/// The rejection of an answer that the login was not waiting for.
pub open spec fn login_out_of_order() -> AppErrorView {
    unexpected("login flow out of order"@, "the answer does not belong to the pending request"@)
}

/// A login and the action after one answer.
pub struct H2mTransition {
    pub flow: H2mFlowView,
    pub action: H2mActionView,
}

/// The login ended by a rejection.
pub open spec fn h2m_reject(flow: H2mFlowView, error: AppErrorView) -> H2mTransition {
    H2mTransition {
        flow: H2mFlowView { state: H2mStateView::Finished, ..flow },
        action: H2mActionView::Rejected { error },
    }
}

/// The login brought on to `state`, with the request that belongs to it.
pub open spec fn h2m_go(flow: H2mFlowView, state: H2mStateView, action: H2mActionView) -> H2mTransition {
    H2mTransition { flow: H2mFlowView { state, ..flow }, action }
}

/// The whole of the rules: what each answer leads to in each state.
pub open spec fn h2m_transition(flow: H2mFlowView, event: H2mEventView) -> H2mTransition {
    match (flow.state, event) {
        (H2mStateView::AwaitingIdToken, H2mEventView::IdTokenFetched { outcome: Ok(id_token) }) => {
            h2m_go(flow, H2mStateView::AwaitingIdentity, H2mActionView::DecodeIdentity { id_token })
        },
        (H2mStateView::AwaitingIdToken, H2mEventView::IdTokenFetched { outcome: Err(cause) }) => {
            h2m_reject(flow, unexpected("Error fetching token from idp"@, cause))
        },
        (
            H2mStateView::AwaitingIdentity,
            H2mEventView::IdentityDecoded { outcome: Ok(identity) },
        ) => h2m_go(
            flow,
            H2mStateView::AwaitingCompany { identity },
            H2mActionView::ProvisionCompany {
                external_id: identity.company_id,
                display_name: identity.company_name,
            },
        ),
        (H2mStateView::AwaitingIdentity, H2mEventView::IdentityDecoded { outcome: Err(cause) }) => {
            h2m_reject(flow, unexpected("Error decoding id_token"@, cause))
        },
        (
            H2mStateView::AwaitingCompany { identity },
            H2mEventView::CompanyProvisioned { outcome: Ok(company_id) },
        ) => h2m_go(
            flow,
            H2mStateView::AwaitingUser {
                company_id,
                realm_access_roles: identity.realm_access_roles,
            },
            H2mActionView::ProvisionUser {
                subject: identity.subject,
                email: identity.email,
                fullname: identity.fullname(),
                company_id,
                idp_identifier: flow.idp_eori,
                idp_url: flow.idp_url,
            },
        ),
        (
            H2mStateView::AwaitingCompany { .. },
            H2mEventView::CompanyProvisioned { outcome: Err(cause) },
        ) => h2m_reject(flow, unexpected("Error inserting company into db"@, cause)),
        (
            H2mStateView::AwaitingUser { company_id, realm_access_roles },
            H2mEventView::UserProvisioned { outcome: Ok(user_id) },
        ) => h2m_go(
            flow,
            H2mStateView::Finished,
            H2mActionView::LoggedIn {
                company_id,
                user: UserOptionView { user_id, realm_access_roles },
            },
        ),
        (
            H2mStateView::AwaitingUser { .. },
            H2mEventView::UserProvisioned { outcome: Err(cause) },
        ) => h2m_reject(flow, unexpected("Error inserting user into db"@, cause)),
        _ => h2m_reject(flow, login_out_of_order()),
    }
}

/// What a login starts with: the exchange of the code, for which the registry
/// signs an assertion, or the end where it cannot sign.
pub open spec fn h2m_start(
    idp_eori: Seq<char>,
    idp_url: Seq<char>,
    server_url: Seq<char>,
    code: Seq<char>,
    signed: Result<Seq<char>, Seq<char>>,
) -> H2mTransition {
    match signed {
        Ok(client_assertion) => H2mTransition {
            flow: H2mFlowView { state: H2mStateView::AwaitingIdToken, idp_eori, idp_url },
            action: H2mActionView::FetchIdToken { server_url, code, client_assertion },
        },
        Err(cause) => H2mTransition {
            flow: H2mFlowView { state: H2mStateView::Finished, idp_eori, idp_url },
            action: H2mActionView::Rejected {
                error: unexpected("Error creating client assertion"@, cause),
            },
        },
    }
}

/// Puts a person's name together.
pub fn fullname(first_name: &str, last_name: &str) -> (name: String)
    ensures
        name@ == first_name@ + " "@ + last_name@,
{
    let mut name = first_name.to_owned();
    name.append(" ");
    name.append(last_name);
    name
}

impl H2mFlow {
    /// Starts a login with the identity provider `idp_eori` at `idp_url`,
    /// given the assertion that the registry signed for it, or why it did not.
    pub fn start(
        idp_eori: &str,
        idp_url: &str,
        server_url: &str,
        code: &str,
        signed: Result<String, String>,
    ) -> (start: (H2mFlow, H2mAction))
        ensures
            (H2mTransition { flow: start.0@, action: start.1@ }) == h2m_start(
                idp_eori@,
                idp_url@,
                server_url@,
                code@,
                texts(signed),
            ),
    {
        match signed {
            Ok(client_assertion) => (
                H2mFlow {
                    state: H2mState::AwaitingIdToken,
                    idp_eori: idp_eori.to_owned(),
                    idp_url: idp_url.to_owned(),
                },
                H2mAction::FetchIdToken {
                    server_url: server_url.to_owned(),
                    code: code.to_owned(),
                    client_assertion,
                },
            ),
            Err(cause) => (
                H2mFlow {
                    state: H2mState::Finished,
                    idp_eori: idp_eori.to_owned(),
                    idp_url: idp_url.to_owned(),
                },
                H2mAction::Rejected {
                    error: AppError::unexpected("Error creating client assertion", cause),
                },
            ),
        }
    }

    pub fn is_finished(&self) -> (finished: bool)
        ensures
            finished == (self@.state is Finished),
    {
        match &self.state {
            H2mState::Finished => true,
            _ => false,
        }
    }

    /// Takes the answer to the pending request and hands out the next
    /// request or the outcome, as [`h2m_transition`] rules.
    pub fn advance(&mut self, event: H2mEvent) -> (action: H2mAction)
        ensures
            h2m_transition(old(self)@, event@) == (H2mTransition {
                flow: final(self)@,
                action: action@,
            }),
    {
        let mut state = H2mState::Finished;
        std::mem::swap(&mut self.state, &mut state);
        match (state, event) {
            (H2mState::AwaitingIdToken, H2mEvent::IdTokenFetched { outcome }) => match outcome {
                Ok(id_token) => {
                    self.state = H2mState::AwaitingIdentity;
                    H2mAction::DecodeIdentity { id_token }
                },
                Err(cause) => H2mAction::Rejected {
                    error: AppError::unexpected("Error fetching token from idp", cause),
                },
            },
            (H2mState::AwaitingIdentity, H2mEvent::IdentityDecoded { outcome }) => match outcome {
                Ok(identity) => {
                    let action = H2mAction::ProvisionCompany {
                        external_id: identity.company_id.clone(),
                        display_name: identity.company_name.clone(),
                    };
                    self.state = H2mState::AwaitingCompany { identity };
                    action
                },
                Err(cause) => H2mAction::Rejected {
                    error: AppError::unexpected("Error decoding id_token", cause),
                },
            },
            (H2mState::AwaitingCompany { identity }, H2mEvent::CompanyProvisioned { outcome }) => {
                match outcome {
                    Ok(company_id) => {
                        let action = H2mAction::ProvisionUser {
                            fullname: fullname(
                                identity.first_name.as_str(),
                                identity.last_name.as_str(),
                            ),
                            subject: identity.subject,
                            email: identity.email,
                            company_id: company_id.clone(),
                            idp_identifier: self.idp_eori.clone(),
                            idp_url: self.idp_url.clone(),
                        };
                        self.state = H2mState::AwaitingUser {
                            company_id,
                            realm_access_roles: identity.realm_access_roles,
                        };
                        action
                    },
                    Err(cause) => H2mAction::Rejected {
                        error: AppError::unexpected("Error inserting company into db", cause),
                    },
                }
            },
            (
                H2mState::AwaitingUser { company_id, realm_access_roles },
                H2mEvent::UserProvisioned { outcome },
            ) => match outcome {
                Ok(user_id) => H2mAction::LoggedIn {
                    company_id,
                    user: UserOption { user_id, realm_access_roles },
                },
                Err(cause) => H2mAction::Rejected {
                    error: AppError::unexpected("Error inserting user into db", cause),
                },
            },
            _ => H2mAction::Rejected {
                error: AppError::unexpected(
                    "login flow out of order",
                    "the answer does not belong to the pending request".to_owned(),
                ),
            },
        }
    }
}

/// A person is logged in only by the answer of the store to the request for
/// the person's record, for the company that the store named before, and
/// with the roles that the identity provider gave.
pub proof fn lemma_logged_in_only_by_the_store(flow: H2mFlowView, event: H2mEventView)
    requires
        h2m_transition(flow, event).action is LoggedIn,
    ensures
        flow.state matches H2mStateView::AwaitingUser { company_id, realm_access_roles }
            && event matches H2mEventView::UserProvisioned { outcome: Ok(user_id) }
            && h2m_transition(flow, event).action == (H2mActionView::LoggedIn {
            company_id,
            user: UserOptionView { user_id, realm_access_roles },
        }),
{
}

/// The person's record is asked for under the company that the store has
/// just named, and under the identity provider that the login began with.
pub proof fn lemma_user_is_provisioned_under_the_stored_company(
    flow: H2mFlowView,
    event: H2mEventView,
)
    requires
        h2m_transition(flow, event).action is ProvisionUser,
    ensures
        flow.state matches H2mStateView::AwaitingCompany { identity }
            && event matches H2mEventView::CompanyProvisioned { outcome: Ok(stored) }
            && h2m_transition(flow, event).action == (H2mActionView::ProvisionUser {
            subject: identity.subject,
            email: identity.email,
            fullname: identity.fullname(),
            company_id: stored,
            idp_identifier: flow.idp_eori,
            idp_url: flow.idp_url,
        }),
{
}

/// A login has ended exactly when it has handed out a verdict; it keeps the
/// identity provider it began with; and the store is written to only once
/// the identity provider has answered.
pub proof fn lemma_login_ends_with_a_verdict(flow: H2mFlowView, event: H2mEventView)
    ensures
        ({
            let next = h2m_transition(flow, event);
            &&& next.flow.state is Finished <==> next.action.is_verdict()
            &&& next.flow.idp_eori == flow.idp_eori
            &&& next.flow.idp_url == flow.idp_url
            &&& next.action.writes() ==> !(flow.state is AwaitingIdToken) && !(flow.state
                is Finished)
        }),
{
}

/// A failure, and an answer that the login was not waiting for, end the login
/// in a rejection that is nobody's in particular; a login that has ended
/// stays ended.
pub proof fn lemma_login_failures_reject(flow: H2mFlowView, event: H2mEventView)
    requires
        match event {
            H2mEventView::IdTokenFetched { outcome } => outcome is Err || !(flow.state
                is AwaitingIdToken),
            H2mEventView::IdentityDecoded { outcome } => outcome is Err || !(flow.state
                is AwaitingIdentity),
            H2mEventView::CompanyProvisioned { outcome } => outcome is Err || !(flow.state
                is AwaitingCompany),
            H2mEventView::UserProvisioned { outcome } => outcome is Err || !(flow.state
                is AwaitingUser),
        },
    ensures
        h2m_transition(flow, event).action matches H2mActionView::Rejected { error } && error
            is Unexpected,
        h2m_transition(flow, event).flow.state is Finished,
{
}

/// The login that four answers in a row lead to, from the first on.
pub open spec fn h2m_after_four(
    flow: H2mFlowView,
    first: H2mEventView,
    second: H2mEventView,
    third: H2mEventView,
    fourth: H2mEventView,
) -> H2mTransition {
    let fetched = h2m_transition(flow, first);
    let decoded = h2m_transition(fetched.flow, second);
    let company = h2m_transition(decoded.flow, third);
    h2m_transition(company.flow, fourth)
}

/// No login without every step: a login that begins with the exchange of the
/// code and has the person logged in after four answers got, in this order,
/// an identity token, the person's identity out of it, the company's record
/// from the store and the person's record from the store; and the person is
/// logged in for the company that the store named, as the user that the
/// store named, with the roles that the identity provider gave.
pub proof fn lemma_login_passes_every_step(
    flow: H2mFlowView,
    first: H2mEventView,
    second: H2mEventView,
    third: H2mEventView,
    fourth: H2mEventView,
)
    requires
        flow.state is AwaitingIdToken,
        h2m_after_four(flow, first, second, third, fourth).action is LoggedIn,
    ensures
        first matches H2mEventView::IdTokenFetched { outcome: Ok(_) },
        second matches H2mEventView::IdentityDecoded { outcome: Ok(identity) }
            && third matches H2mEventView::CompanyProvisioned { outcome: Ok(company_id) }
            && fourth matches H2mEventView::UserProvisioned { outcome: Ok(user_id) }
            && h2m_after_four(flow, first, second, third, fourth).action == (
        H2mActionView::LoggedIn {
            company_id,
            user: UserOptionView { user_id, realm_access_roles: identity.realm_access_roles },
        }),
{
}

/// A login that begins with the exchange of the code has nobody logged in
/// before the fourth answer.
pub proof fn lemma_login_takes_four_answers(
    flow: H2mFlowView,
    first: H2mEventView,
    second: H2mEventView,
    third: H2mEventView,
)
    requires
        flow.state is AwaitingIdToken,
    ensures
        ({
            let fetched = h2m_transition(flow, first);
            let decoded = h2m_transition(fetched.flow, second);
            let company = h2m_transition(decoded.flow, third);
            &&& !(fetched.action is LoggedIn)
            &&& !(decoded.action is LoggedIn)
            &&& !(company.action is LoggedIn)
            &&& !fetched.action.writes()
        }),
{
}

} // verus!
