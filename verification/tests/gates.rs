use authorization_registry::assertion::{
    certificate_is_listed, check_chain_verdict, check_decoding, check_request_arguments,
    either_decoded, previous_step, validate_party_certificate, ChainFailure,
    DecodedClientAssertion, PreviousStep,
};
use authorization_registry::error::{AppError, ExpectedError, UnexpectedError};
use authorization_registry::error::{BAD_REQUEST, INTERNAL_SERVER_ERROR, UNAUTHORIZED};
use authorization_registry::party::{PartyInfo, ValidatePartyError};
use authorization_registry::provider::signing_outcome;

fn assertion(chain: Option<Vec<&str>>) -> DecodedClientAssertion {
    DecodedClientAssertion {
        issuer: "NL123".to_owned(),
        subject: "NL123".to_owned(),
        audience: "NL123".to_owned(),
        certificate_chain: chain.map(|entries| entries.into_iter().map(str::to_owned).collect()),
    }
}

fn party(certificates: Vec<&str>) -> PartyInfo {
    PartyInfo {
        party_id: "NL123".to_owned(),
        party_name: "Company".to_owned(),
        certificates: certificates.into_iter().map(str::to_owned).collect(),
    }
}

#[test]
fn statuses_are_those_of_the_protocol() {
    assert_eq!(BAD_REQUEST, 400);
    assert_eq!(UNAUTHORIZED, 401);
    assert_eq!(INTERNAL_SERVER_ERROR, 500);
}

#[test]
fn expected_error_shows_its_message_and_unexpected_error_hides_its_cause() {
    let expected = AppError::expected(401, "no".to_owned(), "because".to_owned());
    assert_eq!(
        expected,
        AppError::Expected(ExpectedError {
            status_code: 401,
            message: "no".to_owned(),
            reason: "because".to_owned(),
            metadata: None,
        })
    );
    assert!(expected.is_expected());
    assert_eq!(expected.status_code(), 401);
    assert_eq!(expected.message(), "no");

    let unexpected = AppError::unexpected("Error doing it", "socket closed".to_owned());
    assert_eq!(
        unexpected,
        AppError::Unexpected(UnexpectedError {
            context: "Error doing it".to_owned(),
            cause: "socket closed".to_owned(),
        })
    );
    assert!(!unexpected.is_expected());
    assert_eq!(unexpected.status_code(), 500);
    assert_eq!(unexpected.message(), "Internal server error");
}

#[test]
fn refused_arguments_are_a_bad_request_with_the_frameworks_message() {
    assert_eq!(check_request_arguments(Ok(())), Ok(()));
    assert_eq!(
        check_request_arguments(Err("scope should be iSHARE".to_owned())),
        Err(AppError::expected(
            400,
            "scope should be iSHARE".to_owned(),
            "Invalid iSHARE Request arguments!".to_owned()
        ))
    );
}

#[test]
fn only_a_chain_found_good_passes() {
    assert_eq!(check_chain_verdict(Ok(true)), Ok(()));
    assert_eq!(
        check_chain_verdict(Ok(false)),
        Err(AppError::expected(
            400,
            "client assertion is invalid".to_owned(),
            "invalid client assertion".to_owned()
        ))
    );
    assert_eq!(
        check_chain_verdict(Err(ChainFailure::Unreadable("x5c is missing from header".to_owned()))),
        Err(AppError::expected(
            400,
            "client assertion is invalid".to_owned(),
            "x5c is missing from header".to_owned()
        ))
    );
    assert_eq!(
        check_chain_verdict(Err(ChainFailure::Unchecked("no root certificate".to_owned()))),
        Err(AppError::unexpected(
            "Error validating client assertion",
            "no root certificate".to_owned()
        ))
    );
}

#[test]
fn undecodable_assertion_is_a_bad_request_with_the_diagnostic() {
    let decoded = assertion(Some(vec!["cert"]));
    assert_eq!(check_decoding(Ok(decoded.clone())), Ok(decoded));
    assert_eq!(
        check_decoding(Err("IssDoesntMatchClientId".to_owned())),
        Err(AppError::expected(
            400,
            "client assertion is invalid".to_owned(),
            "IssDoesntMatchClientId".to_owned()
        ))
    );
}

#[test]
fn first_certificate_of_the_chain_must_be_listed() {
    let listed = party(vec!["a", "b", "c"]);
    assert_eq!(validate_party_certificate(&assertion(Some(vec!["a"])), &listed), Ok(true));
    assert_eq!(validate_party_certificate(&assertion(Some(vec!["c", "x"])), &listed), Ok(true));
    assert_eq!(validate_party_certificate(&assertion(Some(vec!["x", "a"])), &listed), Ok(false));
    assert_eq!(validate_party_certificate(&assertion(Some(vec!["a"])), &party(vec![])), Ok(false));
    assert_eq!(validate_party_certificate(&assertion(Some(vec!["A"])), &listed), Ok(false));
}

#[test]
fn chain_without_a_first_certificate_cannot_be_checked() {
    let listed = party(vec!["a"]);
    assert_eq!(
        validate_party_certificate(&assertion(None), &listed),
        Err("missing x5c header".to_owned())
    );
    assert_eq!(
        validate_party_certificate(&assertion(Some(vec![])), &listed),
        Err("missing x5c header".to_owned())
    );
    assert_eq!(
        certificate_is_listed(&None, &vec!["a".to_owned()]),
        Err("missing x5c header".to_owned())
    );
    assert_eq!(
        certificate_is_listed(&Some(vec!["a".to_owned()]), &vec!["a".to_owned()]),
        Ok(true)
    );
}

#[test]
fn probe_says_yes_if_either_decoding_succeeded() {
    let good = || Ok(assertion(Some(vec!["cert"])));
    let bad = || Err("InvalidAudience".to_owned());
    assert!(either_decoded(&good(), &good()));
    assert!(either_decoded(&good(), &bad()));
    assert!(either_decoded(&bad(), &good()));
    assert!(!either_decoded(&bad(), &bad()));
}

#[test]
fn signing_failure_is_reported_under_what_was_being_signed() {
    assert_eq!(signing_outcome(Ok("token".to_owned()), "Error creating it"), Ok("token".to_owned()));
    assert_eq!(
        signing_outcome(Err("no key".to_owned()), "Error creating it"),
        Err(AppError::unexpected("Error creating it", "no key".to_owned()))
    );
}

#[test]
fn party_errors_read_as_the_satellite_words_them() {
    assert_eq!(
        ValidatePartyError::NotFound("NL1".to_owned()).message(),
        "The ishare party NL1 does not seem to exist"
    );
    assert_eq!(
        ValidatePartyError::Inactive("NL1".to_owned()).message(),
        "The ishare party NL1 is currently not active"
    );
    assert_eq!(ValidatePartyError::AdherenceExpired.message(), "adherence is not active anymore");
    assert_eq!(ValidatePartyError::Unexpected("boom".to_owned()).message(), "boom");
    assert!(ValidatePartyError::NotFound("NL1".to_owned()).is_client_attributable());
    assert!(ValidatePartyError::Inactive("NL1".to_owned()).is_client_attributable());
    assert!(ValidatePartyError::AdherenceExpired.is_client_attributable());
    assert!(!ValidatePartyError::Unexpected("boom".to_owned()).is_client_attributable());
}

#[test]
fn probe_keeps_the_diagnostic_of_each_decoding_that_failed() {
    let good = || Ok(assertion(Some(vec!["cert"])));
    let bad = |why: &str| Err(why.to_owned());
    assert_eq!(
        previous_step(good(), good()),
        PreviousStep { inherited: true, policy_issuer_refusal: None, access_subject_refusal: None }
    );
    assert_eq!(
        previous_step(good(), bad("InvalidAudience")),
        PreviousStep {
            inherited: true,
            policy_issuer_refusal: None,
            access_subject_refusal: Some("InvalidAudience".to_owned()),
        }
    );
    assert_eq!(
        previous_step(bad("first"), good()),
        PreviousStep {
            inherited: true,
            policy_issuer_refusal: Some("first".to_owned()),
            access_subject_refusal: None,
        }
    );
    assert_eq!(
        previous_step(bad("first"), bad("second")),
        PreviousStep {
            inherited: false,
            policy_issuer_refusal: Some("first".to_owned()),
            access_subject_refusal: Some("second".to_owned()),
        }
    );
}
