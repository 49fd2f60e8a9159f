//! The calls into the trust framework's own library, and what is taken on
//! trust about each of them.
//!
//! Nothing in this file is proved, and nothing outside it is taken on trust.
//! Every function here is a thin call into `ishare`, `jsonwebtoken` or
//! `chrono`; its contract is what the rest of the library believes of that
//! call. A function without a body gives a name to what such a call returns
//! where that depends on the call's arguments alone.

use crate::assertion::{verdict_of, ChainFailure, ChainVerdict, DecodedClientAssertion};
use vstd::prelude::*;

verus! {

/// The registry's own identity in the trust framework: its key store, the
/// framework's root certificate, and the satellite's address.
#[verifier::external_type_specification]
#[verifier::external_body]
pub struct ExIshare(ishare::ishare::ISHARE);

/// Delegation evidence as the policy layer hands it over. It is signed as it is.
#[verifier::external_type_specification]
#[verifier::external_body]
pub struct ExDelegationEvidenceContainer(ishare::delegation_evidence::DelegationEvidenceContainer);

/// The registry's description of itself. It is signed as it is.
#[verifier::external_type_specification]
#[verifier::external_body]
pub struct ExCapabilities(ishare::ishare::Capabilities);

/// What the registry puts its signature under, besides the standard claims.
pub(crate) enum ExtraClaims<'a> {
    DelegationEvidence(&'a ishare::delegation_evidence::DelegationEvidenceContainer),
    Capabilities(&'a ishare::ishare::Capabilities),
    /// Claims for the identity provider, by name and value.
    AuthRequest(&'a Vec<(String, String)>),
}

/// Reads the machine's clock through `chrono::Utc::now` and `DateTime::timestamp`.
///
/// Nothing is claimed of the value: two readings may differ in either direction.
#[verifier::external_body]
pub(crate) fn clock_seconds() -> (seconds: i64) {
    chrono::Utc::now().timestamp()
}

/// What the framework answers to the three fixed arguments of a token request:
/// each must be the one value the framework knows, and the first that is not
/// decides the message.
pub open spec fn request_arguments_verdict(
    grant_type: Seq<char>,
    client_assertion_type: Seq<char>,
    scope: Seq<char>,
) -> Result<(), Seq<char>> {
    if grant_type != "client_credentials"@ {
        Err("grant type should be 'client_credentials'"@)
    } else if client_assertion_type
        != "urn:ietf:params:oauth:client-assertion-type:jwt-bearer"@ {
        Err(
            "client assertion type should be 'urn:ietf:params:oauth:client-assertion-type:jwt-bearer'"@,
        )
    } else if scope != "iSHARE"@ {
        Err("scope should be iSHARE"@)
    } else {
        Ok(())
    }
}

/// Calls `ishare::ishare::validate_request_arguments`.
///
/// That function compares the three arguments, in this order, with three
/// literals and returns the message of the first that differs; the contract
/// repeats this, literal for literal.
#[verifier::external_body]
pub(crate) fn validate_request_arguments(
    grant_type: &str,
    client_assertion_type: &str,
    scope: &str,
) -> (verdict: Result<(), String>)
    ensures
        match verdict {
            Ok(_) => request_arguments_verdict(grant_type@, client_assertion_type@, scope@) is Ok,
            Err(message) => request_arguments_verdict(grant_type@, client_assertion_type@, scope@)
                == Err::<(), Seq<char>>(message@),
        },
{
    ishare::ishare::validate_request_arguments(grant_type, client_assertion_type, scope)
}

/// The certificate chain that a token's header carries: `Some` where the
/// header can be read and has a chain, `None` otherwise.
pub uninterp spec fn header_chain(token: Seq<char>) -> Option<Seq<Seq<char>>>;

/// Calls `jsonwebtoken::decode_header` and picks the `x5c` field.
///
/// The header is read without any check of the signature. The result depends
/// on the token's text alone.
#[verifier::external_body]
pub(crate) fn read_header_chain(token: &str) -> (chain: Option<Vec<String>>)
    ensures
        match chain {
            Some(certificates) => header_chain(token@) == Some(certificates.deep_view()),
            None => header_chain(token@) is None,
        },
{
    jsonwebtoken::decode_header(token).ok().and_then(|header| header.x5c)
}

/// The `iat` claim of a token, where the token's payload is a JSON object that
/// holds one as a non-negative integer below 2^64.
pub uninterp spec fn issued_at(token: Seq<char>) -> Option<u64>;

/// Calls `jsonwebtoken::decode` with every check switched off, into a
/// `serde_json::Value`, and picks the `iat` claim.
///
/// Neither signature nor expiry nor audience is looked at, so the result
/// depends on the token's text alone.
#[verifier::external_body]
pub(crate) fn read_issued_at(token: &str) -> (second: Option<u64>)
    ensures
        second == issued_at(token@),
{
    let mut unchecked = jsonwebtoken::Validation::new(jsonwebtoken::Algorithm::RS256);
    unchecked.insecure_disable_signature_validation();
    unchecked.validate_exp = false;
    unchecked.validate_aud = false;
    unchecked.required_spec_claims.clear();
    let key = jsonwebtoken::DecodingKey::from_secret(&[]);
    jsonwebtoken::decode::<serde_json::Value>(token, &key, &unchecked)
        .ok()
        .and_then(|data| data.claims.get("iat").and_then(|claim| claim.as_u64()))
}

/// What `registry` makes of the certificate chain of a token: whether its
/// first certificate was issued under the framework's root certificate that
/// `registry` holds, or why that cannot be told.
pub uninterp spec fn chain_verdict(registry: ishare::ishare::ISHARE, token: Seq<char>) -> ChainVerdict;

/// Calls `ISHARE::validate_token`.
///
/// It reads the first certificate of the token's chain and checks that
/// certificate's signature against the root certificate's public key. Neither
/// the clock nor anything else outside the two arguments is consulted. Of its
/// two kinds of error, one says that no first certificate could be read from
/// the token, and the other covers everything else, a registry without a
/// root certificate included; they are told apart here, and each is handed
/// on as the text that it prints. It indexes the chain without looking at its
/// length, hence the `requires`.
#[verifier::external_body]
pub(crate) fn validate_token(registry: &ishare::ishare::ISHARE, token: &String) -> (verdict: Result<
    bool,
    ChainFailure,
>)
    requires
        header_chain(token@) matches Some(chain) ==> chain.len() > 0,
    ensures
        verdict_of(verdict) == chain_verdict(*registry, token@),
{
    registry.validate_token(token).map_err(
        |error|
            match error {
                ishare::ishare::ValidateTokenError::GetFirstX5CError(unreadable) => {
                    ChainFailure::Unreadable(unreadable.to_string())
                },
                ishare::ishare::ValidateTokenError::Unexpected(failure) => ChainFailure::Unchecked(
                    failure.to_string(),
                ),
            },
    )
}

/// The party that issued a token: its `iss` claim, where the token's payload
/// is a JSON object that holds one as a text.
pub uninterp spec fn issuer_of(token: Seq<char>) -> Option<Seq<char>>;

/// Calls `ISHARE::decode_token` at the time `now`, given in seconds since the epoch.
///
/// It verifies the token's signature with the key of the first certificate of
/// its chain, and accepts it only if it has not expired by the machine's
/// clock, is addressed to `audience` (to the registry itself where none is
/// given), was issued no later than `now`, expires 30 seconds after it was
/// issued, and has `client_id` as issuer and as subject. Since the machine's
/// clock takes part, the same token may be accepted now and refused later:
/// the contract says only what holds of an accepted one. Of an accepted
/// token's claims the outside library shows the subject and the audience; the
/// issuer is given as the subject, which the outside function has found equal
/// to it. The audience shown is the token's one `aud` claim, which the
/// outside function has found equal to the audience asked for: a payload with
/// no such claim, with two, or with one that is no text is not accepted. The
/// same holds of the `iss` claim and `client_id`. The chain shown is the
/// `x5c` field of the header that the outside function has read from the
/// token, and the `iat` claim is one that it has found no later than `now`.
/// A refusal comes back as the text that the outside error prints for
/// debugging.
///
/// It indexes the chain without looking at its length and adds 30 to the
/// `iat` claim, hence the two `requires`.
#[verifier::external_body]
pub(crate) fn decode_token(
    registry: &ishare::ishare::ISHARE,
    now: i64,
    token: &str,
    client_id: &str,
    audience: Option<&str>,
) -> (decoded: Result<DecodedClientAssertion, String>)
    requires
        header_chain(token@) matches Some(chain) ==> chain.len() > 0,
        issued_at(token@) matches Some(second) ==> second + 30 <= u64::MAX,
    ensures
        decoded matches Ok(assertion) ==> {
            &&& assertion.issuer@ == client_id@
            &&& assertion.subject@ == client_id@
            &&& audience matches Some(expected) ==> assertion.audience@ == expected@
            &&& audience matches Some(expected) ==> addressee(token@) == Some(expected@)
            &&& assertion.certificate_chain matches Some(chain) && chain.len() > 0
            &&& header_chain(token@) == assertion@.certificate_chain
            &&& issuer_of(token@) == Some(client_id@)
            &&& issued_at(token@) matches Some(second) && second <= now
        },
{
    let at = match chrono::DateTime::from_timestamp(now, 0) {
        Some(at) => at,
        None => return Err("time out of range".to_owned()),
    };
    match registry.decode_token(at, token, client_id, audience) {
        Ok(data) => Ok(DecodedClientAssertion {
            issuer: data.claims.sub.clone(),
            subject: data.claims.sub,
            audience: data.claims.aud,
            certificate_chain: data.header.x5c,
        }),
        Err(error) => Err(format!("{:?}", error)),
    }
}

/// The identifier of the satellite that `registry` was set up with.
pub uninterp spec fn satellite_eori(registry: ishare::ishare::ISHARE) -> Seq<char>;

/// Reads the public field `sattelite_eori` of `ISHARE`.
#[verifier::external_body]
pub(crate) fn read_satellite_eori(registry: &ishare::ishare::ISHARE) -> (eori: String)
    ensures
        eori@ == satellite_eori(*registry),
{
    registry.sattelite_eori.clone()
}

/// Whether `registry` can put its signature under a token: its key store
/// holds a certificate and an RSA key that the signing library accepts.
///
/// An identity loaded from a complete key store can; with any other, the
/// outside library stops the program when asked to sign. Nothing in this
/// library can find out which it is, so whoever builds the identity answers
/// for it; a signature that came out shows that it could.
pub uninterp spec fn can_sign(registry: ishare::ishare::ISHARE) -> bool;

/// The party that a token is addressed to: its `aud` claim, where the token's
/// payload is a JSON object that holds one as a text.
pub uninterp spec fn addressee(token: Seq<char>) -> Option<Seq<char>>;

/// Calls `ISHARE::create_client_assertion`.
///
/// The token carries the time of signing and a random identifier, so of its
/// text only this is claimed: its `aud` claim is the audience it was signed
/// for, which the outside function writes there as it is given.
#[verifier::external_body]
pub(crate) fn create_client_assertion(registry: &ishare::ishare::ISHARE, audience: &str) -> (signed:
    Result<String, String>)
    requires
        can_sign(*registry),
    ensures
        signed is Ok ==> can_sign(*registry),
        signed matches Ok(token) ==> addressee(token@) == Some(audience@),
{
    registry.create_client_assertion(audience.to_owned()).map_err(|error| error.message)
}

/// The delegation evidence that a token carries: what its payload holds
/// under `delegationEvidence`, where it holds such evidence.
pub uninterp spec fn delegation_evidence_in(token: Seq<char>) -> Option<
    ishare::delegation_evidence::DelegationEvidenceContainer,
>;

/// The description of a registry that a token carries: what its payload
/// holds under `capabilities_info`, where it holds such a description.
pub uninterp spec fn capabilities_in(token: Seq<char>) -> Option<ishare::ishare::Capabilities>;

/// The claim that a token carries under `name`, where the token's payload is
/// a JSON object that holds one claim of that name, as a text.
pub uninterp spec fn claim_in(token: Seq<char>, name: Seq<char>) -> Option<Seq<char>>;

/// Whether `name` is one of the claims that every token of the registry has.
pub open spec fn is_standard_claim(name: Seq<char>) -> bool {
    name == "iss"@ || name == "sub"@ || name == "aud"@ || name == "jti"@ || name == "exp"@ || name
        == "iat"@ || name == "nbf"@
}

/// Whether claims given by name hold an `aud` claim.
pub open spec fn claims_audience(claims: Seq<(String, String)>) -> bool {
    exists|index: int| 0 <= index < claims.len() && (#[trigger] claims[index]).0@ == "aud"@
}

/// Whether the claim at `index` is the only one of its name among `claims`
/// and its name is none that every token has, so that it reaches the token
/// as it is.
pub open spec fn is_carried(claims: Seq<(String, String)>, index: int) -> bool {
    &&& 0 <= index < claims.len()
    &&& !is_standard_claim(claims[index].0@)
    &&& forall|other: int|
        0 <= other < claims.len() && other != index ==> (#[trigger] claims[other]).0@
            != claims[index].0@
}

/// Whether a token carries every claim of `claims` that reaches it as it is.
pub open spec fn carries_claims(token: Seq<char>, claims: Seq<(String, String)>) -> bool {
    forall|index: int| #[trigger]
        is_carried(claims, index) ==> claim_in(token, claims[index].0@) == Some(claims[index].1@)
}

/// Whether the extra claims hold an `aud` claim of their own, which only
/// claims given by name can: the two kinds of evidence have no such field.
pub(crate) open spec fn names_audience(extra_claims: ExtraClaims<'_>) -> bool {
    extra_claims matches ExtraClaims::AuthRequest(pairs) && claims_audience(pairs@)
}

/// Calls `ISHARE::create_client_assertion_with_extra_claims`.
///
/// The token carries the time of signing and a random identifier, so of its
/// text only this is claimed. Its `aud` claim is the audience it was signed
/// for, unless the extra claims hold an `aud` claim of their own, in which
/// case the token has two. And its payload holds the extra claims beside the
/// standard ones, written out by the outside function as they are given:
/// the evidence under `delegationEvidence`, the description under
/// `capabilities_info`, and of claims given by name each whose name is given
/// once and is none of the standard ones. Each kind of extra claims is
/// written out as a JSON object, which is what the outside function needs
/// them to be.
#[verifier::external_body]
pub(crate) fn create_client_assertion_with_extra_claims(
    registry: &ishare::ishare::ISHARE,
    audience: &str,
    extra_claims: ExtraClaims<'_>,
) -> (signed: Result<String, String>)
    requires
        can_sign(*registry),
    ensures
        signed is Ok ==> can_sign(*registry),
        signed matches Ok(token) ==> names_audience(extra_claims) || addressee(token@) == Some(
            audience@,
        ),
        signed matches Ok(token) ==> (extra_claims matches ExtraClaims::DelegationEvidence(
            evidence,
        ) ==> delegation_evidence_in(token@) == Some(*evidence)),
        signed matches Ok(token) ==> (extra_claims matches ExtraClaims::Capabilities(
            capabilities,
        ) ==> capabilities_in(token@) == Some(*capabilities)),
        signed matches Ok(token) ==> (extra_claims matches ExtraClaims::AuthRequest(pairs)
            ==> forall|index: int| #[trigger]
            is_carried(pairs@, index) ==> claim_in(token@, pairs[index].0@) == Some(
                pairs[index].1@,
            )),
{
    let audience = audience.to_owned();
    let signed = match extra_claims {
        ExtraClaims::DelegationEvidence(evidence) => registry
            .create_client_assertion_with_extra_claims(audience, evidence),
        ExtraClaims::Capabilities(capabilities) => registry
            .create_client_assertion_with_extra_claims(audience, capabilities),
        ExtraClaims::AuthRequest(pairs) => registry.create_client_assertion_with_extra_claims(
            audience,
            serde_json::Map::from_iter(pairs.iter().map(|pair| (pair.0.clone(), pair.1.clone().into()))),
        ),
    };
    signed.map_err(|error| error.message)
}

} // verus!
