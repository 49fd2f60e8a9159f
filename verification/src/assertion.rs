//! A client assertion after it was decoded, the gates it passes on the way,
//! and the check that binds it to the certificates of the party it names.

use crate::error::{expected, unexpected, AppError, AppErrorView, BAD_REQUEST, UNAUTHORIZED};
use crate::party::PartyInfo;
use vstd::prelude::*;

verus! {

/// What a presented assertion said, once its signature held: who issued it,
/// whom it speaks of, whom it is addressed to, and the certificate chain of
/// its header. It lives for one request.
#[derive(Debug, Clone, PartialEq, Eq)]
pub struct DecodedClientAssertion {
    pub issuer: String,
    pub subject: String,
    pub audience: String,
    pub certificate_chain: Option<Vec<String>>,
}

pub struct DecodedClientAssertionView {
    pub issuer: Seq<char>,
    pub subject: Seq<char>,
    pub audience: Seq<char>,
    pub certificate_chain: Option<Seq<Seq<char>>>,
}

impl View for DecodedClientAssertion {
    type V = DecodedClientAssertionView;

    open spec fn view(&self) -> DecodedClientAssertionView {
        DecodedClientAssertionView {
            issuer: self.issuer@,
            subject: self.subject@,
            audience: self.audience@,
            certificate_chain: self.certificate_chain.deep_view(),
        }
    }
}

/// Why the framework gave no verdict on the certificate chain of a token.
#[derive(Debug, Clone, PartialEq, Eq)]
pub enum ChainFailure {
    /// The token has no chain that can be read: it is no token, it carries no
    /// chain, or the first entry of its chain is no certificate.
    Unreadable(String),
    /// The chain could be read and the check could still not be made.
    Unchecked(String),
}

/// What the check of a token's certificate chain against the framework's
/// root came to.
pub enum ChainVerdict {
    /// The first certificate of the chain was issued under the root.
    Vouched,
    /// The first certificate of the chain was not issued under the root.
    Refused,
    /// The token has no chain that can be read.
    Unreadable,
    /// The check could not be made.
    Unchecked,
}

/// The kind of verdict that an outcome of the check stands for.
pub open spec fn verdict_of(outcome: Result<bool, ChainFailure>) -> ChainVerdict {
    match outcome {
        Ok(true) => ChainVerdict::Vouched,
        Ok(false) => ChainVerdict::Refused,
        Err(ChainFailure::Unreadable(_)) => ChainVerdict::Unreadable,
        Err(ChainFailure::Unchecked(_)) => ChainVerdict::Unchecked,
    }
}

/// The rejection of a request whose fixed arguments are not the supported ones.
pub open spec fn arguments_rejection(message: Seq<char>) -> AppErrorView {
    expected(BAD_REQUEST, message, "Invalid iSHARE Request arguments!"@)
}

/// The rejection of an assertion that the framework's root does not vouch for.
pub open spec fn invalid_assertion_rejection() -> AppErrorView {
    expected(BAD_REQUEST, "client assertion is invalid"@, "invalid client assertion"@)
}

/// The rejection of an assertion that could not be read, or not be decoded as
/// the client's own.
pub open spec fn undecodable_assertion_rejection(diagnostic: Seq<char>) -> AppErrorView {
    expected(BAD_REQUEST, "client assertion is invalid"@, diagnostic)
}

/// The rejection of an assertion whose certificate the satellite does not list for the party.
pub open spec fn certificate_mismatch_rejection() -> AppErrorView {
    expected(
        UNAUTHORIZED,
        "x5c header does not match any of the certificates from parties endpoint at the iSHARE satelite"@,
        "The client assertion x5c does not match any of the valid tokens from /parties"@,
    )
}

/// First gate: the framework's verdict on the fixed arguments. A refusal is
/// the client's to mend and carries the framework's message.
pub fn check_request_arguments(verdict: Result<(), String>) -> (gate: Result<(), AppError>)
    ensures
        match verdict {
            Ok(_) => gate is Ok,
            Err(message) => gate matches Err(error) && error@ == arguments_rejection(message@),
        },
{
    match verdict {
        Ok(_) => Ok(()),
        Err(message) => Err(
            AppError::expected(BAD_REQUEST, message, "Invalid iSHARE Request arguments!".to_owned()),
        ),
    }
}

/// Second gate: the verdict on the assertion's certificate chain. Only a
/// chain that was checked and found good passes. A chain found bad and a
/// chain that cannot be read are the client's to mend; a check that could not
/// be made is nobody's fault in particular.
pub fn check_chain_verdict(verdict: Result<bool, ChainFailure>) -> (gate: Result<(), AppError>)
    ensures
        match verdict {
            Ok(true) => gate is Ok,
            Ok(false) => gate matches Err(error) && error@ == invalid_assertion_rejection(),
            Err(ChainFailure::Unreadable(diagnostic)) => gate matches Err(error) && error@
                == undecodable_assertion_rejection(diagnostic@),
            Err(ChainFailure::Unchecked(cause)) => gate matches Err(error) && error@ == unexpected(
                "Error validating client assertion"@,
                cause@,
            ),
        },
{
    match verdict {
        Ok(true) => Ok(()),
        Ok(false) => Err(
            AppError::expected(
                BAD_REQUEST,
                "client assertion is invalid".to_owned(),
                "invalid client assertion".to_owned(),
            ),
        ),
        Err(ChainFailure::Unreadable(diagnostic)) => Err(
            AppError::expected(BAD_REQUEST, "client assertion is invalid".to_owned(), diagnostic),
        ),
        Err(ChainFailure::Unchecked(cause)) => Err(
            AppError::unexpected("Error validating client assertion", cause),
        ),
    }
}

/// Third gate: the outcome of decoding the assertion as the client's own. A
/// refusal is the client's to mend and carries the decoder's diagnostic.
pub fn check_decoding(decoded: Result<DecodedClientAssertion, String>) -> (gate: Result<
    DecodedClientAssertion,
    AppError,
>)
    ensures
        match decoded {
            Ok(assertion) => gate == Ok::<DecodedClientAssertion, AppError>(assertion),
            Err(diagnostic) => gate matches Err(error) && error@
                == undecodable_assertion_rejection(diagnostic@),
        },
{
    match decoded {
        Ok(assertion) => Ok(assertion),
        Err(diagnostic) => Err(
            AppError::expected(BAD_REQUEST, "client assertion is invalid".to_owned(), diagnostic),
        ),
    }
}

/// Whether an assertion's certificate is one of a party's: the first entry of
/// the chain must be among the party's certificates. Without a first entry
/// the question has no answer.
pub open spec fn certificate_binding(
    chain: Option<Seq<Seq<char>>>,
    certificates: Seq<Seq<char>>,
) -> Option<bool> {
    match chain {
        Some(entries) => if entries.len() > 0 {
            Some(certificates.contains(entries[0]))
        } else {
            None
        },
        None => None,
    }
}

/// Compares the first certificate of a chain with each certificate of a list.
pub fn certificate_is_listed(chain: &Option<Vec<String>>, certificates: &Vec<String>) -> (bound:
    Result<bool, String>)
    ensures
        match bound {
            Ok(listed) => certificate_binding(chain.deep_view(), certificates.deep_view()) == Some(
                listed,
            ),
            Err(cause) => certificate_binding(chain.deep_view(), certificates.deep_view()) is None
                && cause@ == "missing x5c header"@,
        },
{
    let entries = match chain {
        Some(entries) => entries,
        None => return Err("missing x5c header".to_owned()),
    };
    if entries.len() == 0 {
        return Err("missing x5c header".to_owned());
    }
    let presented = &entries[0];
    let ghost listed = certificates.deep_view();
    let mut index: usize = 0;
    while index < certificates.len()
        invariant
            index <= certificates.len(),
            listed == certificates.deep_view(),
            listed.len() == certificates.len(),
            entries.len() > 0,
            chain.deep_view() == Some(entries.deep_view()),
            presented@ == entries.deep_view()[0],
            forall|earlier: int| 0 <= earlier < index ==> listed[earlier] != presented@,
        decreases certificates.len() - index,
    {
        if certificates[index] == *presented {
            assert(listed[index as int] == presented@);
            return Ok(true);
        }
        index += 1;
    }
    Ok(false)
}

/// Whether the assertion's certificate is one that the satellite lists for the party.
pub fn validate_party_certificate(assertion: &DecodedClientAssertion, party: &PartyInfo) -> (bound:
    Result<bool, String>)
    ensures
        match bound {
            Ok(listed) => certificate_binding(assertion@.certificate_chain, party@.certificates)
                == Some(listed),
            Err(cause) => certificate_binding(assertion@.certificate_chain, party@.certificates)
                is None && cause@ == "missing x5c header"@,
        },
{
    certificate_is_listed(&assertion.certificate_chain, &party.certificates)
}

/// What the probe of a previous step came to: whether trust is inherited,
/// and why each decoding that said no did so.
#[derive(Debug, Clone, PartialEq, Eq)]
pub struct PreviousStep {
    pub inherited: bool,
    /// Why the assertion did not decode as addressed to the policy issuer.
    pub policy_issuer_refusal: Option<String>,
    /// Why the assertion did not decode as addressed to the access subject.
    pub access_subject_refusal: Option<String>,
}

pub struct PreviousStepView {
    pub inherited: bool,
    pub policy_issuer_refusal: Option<Seq<char>>,
    pub access_subject_refusal: Option<Seq<char>>,
}

impl View for PreviousStep {
    type V = PreviousStepView;

    open spec fn view(&self) -> PreviousStepView {
        PreviousStepView {
            inherited: self.inherited,
            policy_issuer_refusal: match self.policy_issuer_refusal {
                Some(diagnostic) => Some(diagnostic@),
                None => None,
            },
            access_subject_refusal: match self.access_subject_refusal {
                Some(diagnostic) => Some(diagnostic@),
                None => None,
            },
        }
    }
}

/// Why a decoding said no, if it did.
pub open spec fn refusal_of(decoded: Result<DecodedClientAssertion, String>) -> Option<Seq<char>> {
    match decoded {
        Ok(_) => None,
        Err(diagnostic) => Some(diagnostic@),
    }
}

/// The answer of the advisory probe of a previous step: trust is inherited
/// where the assertion decoded for either of the two audiences.
pub fn either_decoded(
    for_policy_issuer: &Result<DecodedClientAssertion, String>,
    for_access_subject: &Result<DecodedClientAssertion, String>,
) -> (inherited: bool)
    ensures
        inherited == (for_policy_issuer is Ok || for_access_subject is Ok),
{
    for_policy_issuer.is_ok() || for_access_subject.is_ok()
}

/// What the probe of a previous step comes to, given the two decodings:
/// trust is inherited where either succeeded, and each that did not leaves
/// its diagnostic.
pub fn previous_step(
    for_policy_issuer: Result<DecodedClientAssertion, String>,
    for_access_subject: Result<DecodedClientAssertion, String>,
) -> (probe: PreviousStep)
    ensures
        probe@ == (PreviousStepView {
            inherited: for_policy_issuer is Ok || for_access_subject is Ok,
            policy_issuer_refusal: refusal_of(for_policy_issuer),
            access_subject_refusal: refusal_of(for_access_subject),
        }),
{
    let inherited = either_decoded(&for_policy_issuer, &for_access_subject);
    PreviousStep {
        inherited,
        policy_issuer_refusal: match for_policy_issuer {
            Ok(_) => None,
            Err(diagnostic) => Some(diagnostic),
        },
        access_subject_refusal: match for_access_subject {
            Ok(_) => None,
            Err(diagnostic) => Some(diagnostic),
        },
    }
}

} // verus!
