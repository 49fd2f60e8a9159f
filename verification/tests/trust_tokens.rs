use authorization_registry::assertion::{ChainFailure, PreviousStep};
use authorization_registry::error::AppError;
use authorization_registry::h2m::{H2mAction, H2mEvent, IdentityClaims, UserOption};
use authorization_registry::idp::IdpConnector;
use authorization_registry::m2m::M2mAction;
use authorization_registry::party::{PartyInfo, ValidatePartyError};
use authorization_registry::party_lookup::{PartyLookupAction, PartyLookupEvent, PartyLookupStage};
use authorization_registry::provider::ISHAREProvider;
use authorization_registry::satellite_token::TokenResponse;
use authorization_registry::time::{RealTimeProvider, TimeProvider};
use authorization_registry::token_cache::TokenCache;
use std::io::Write;
use std::sync::Arc;

const GRANT_TYPE: &str = "client_credentials";
const ASSERTION_TYPE: &str = "urn:ietf:params:oauth:client-assertion-type:jwt-bearer";
const SCOPE: &str = "iSHARE";

struct Identity {
    registry: Arc<ishare::ishare::ISHARE>,
    certificate: String,
    key: Vec<u8>,
}

fn identity(eori: &str) -> Identity {
    let rsa = openssl::rsa::Rsa::generate(2048).unwrap();
    let key_pem = rsa.private_key_to_pem().unwrap();
    let key = openssl::pkey::PKey::from_rsa(rsa).unwrap();
    let mut subject = openssl::x509::X509NameBuilder::new().unwrap();
    subject.append_entry_by_text("CN", eori).unwrap();
    let subject = subject.build();
    let mut builder = openssl::x509::X509Builder::new().unwrap();
    builder.set_version(2).unwrap();
    builder.set_subject_name(&subject).unwrap();
    builder.set_issuer_name(&subject).unwrap();
    builder.set_pubkey(&key).unwrap();
    builder.set_not_before(&openssl::asn1::Asn1Time::days_from_now(0).unwrap()).unwrap();
    builder.set_not_after(&openssl::asn1::Asn1Time::days_from_now(30).unwrap()).unwrap();
    builder.sign(&key, openssl::hash::MessageDigest::sha256()).unwrap();
    let certificate = builder.build();
    let mut authorities = openssl::stack::Stack::new().unwrap();
    authorities.push(certificate.clone()).unwrap();
    let mut store = openssl::pkcs12::Pkcs12::builder();
    store.name(eori);
    store.pkey(&key);
    store.cert(&certificate);
    store.ca(authorities);
    let store = store.build2("secret").unwrap();
    let mut store_file = tempfile::NamedTempFile::new().unwrap();
    store_file.write_all(&store.to_der().unwrap()).unwrap();
    store_file.flush().unwrap();
    let mut root_file = tempfile::NamedTempFile::new().unwrap();
    root_file.write_all(&certificate.to_pem().unwrap()).unwrap();
    root_file.flush().unwrap();
    let registry = ishare::ishare::ISHARE::new(
        store_file.path().to_str().unwrap().to_owned(),
        "secret".to_owned(),
        "http://localhost:1".to_owned(),
        Some(root_file.path().to_str().unwrap().to_owned()),
        eori.to_owned(),
        "EU.EORI.SATELLITE".to_owned(),
    )
    .unwrap();
    let bare = String::from_utf8(certificate.to_pem().unwrap())
        .unwrap()
        .replace("-----BEGIN CERTIFICATE-----\n", "")
        .replace("-----END CERTIFICATE-----", "")
        .replace('\n', "");
    Identity { registry: Arc::new(registry), certificate: bare, key: key_pem }
}

fn provider(identity: &Identity) -> ISHAREProvider {
    let connector = IdpConnector::new(
        "https://idp.example".to_owned(),
        "NL123".to_owned(),
        "EU.EORI.IDP".to_owned(),
    );
    ISHAREProvider::new(identity.registry.clone(), &connector)
}

fn now() -> i64 {
    RealTimeProvider::new().now()
}

fn text(value: &str) -> serde_json::Value {
    serde_json::Value::String(value.to_owned())
}

fn claims_of(token: &str) -> serde_json::Value {
    let mut unchecked = jsonwebtoken::Validation::new(jsonwebtoken::Algorithm::RS256);
    unchecked.insecure_disable_signature_validation();
    unchecked.validate_exp = false;
    unchecked.validate_aud = false;
    let key = jsonwebtoken::DecodingKey::from_secret(&[]);
    jsonwebtoken::decode::<serde_json::Value>(token, &key, &unchecked).unwrap().claims
}

fn standard_claims(client: &str, issued_at: u64, expires_at: u64) -> serde_json::Map<String, serde_json::Value> {
    let mut claims = serde_json::Map::new();
    claims.insert("iss".to_owned(), text(client));
    claims.insert("sub".to_owned(), text(client));
    claims.insert("aud".to_owned(), text(client));
    claims.insert("jti".to_owned(), text("1"));
    claims.insert("iat".to_owned(), serde_json::Value::from(issued_at));
    claims.insert("exp".to_owned(), serde_json::Value::from(expires_at));
    claims
}

/// A token under a shared secret, with the given chain in its header.
fn unsigned_token(chain: Option<Vec<String>>, issued_at: u64) -> String {
    let mut header = jsonwebtoken::Header::new(jsonwebtoken::Algorithm::HS256);
    header.x5c = chain;
    jsonwebtoken::encode(
        &header,
        &standard_claims("NL123", issued_at, issued_at.wrapping_add(30)),
        &jsonwebtoken::EncodingKey::from_secret(b"shared"),
    )
    .unwrap()
}

/// A token that the client signed itself, with claims of the test's choosing.
fn self_signed_token(client: &Identity, claims: &serde_json::Map<String, serde_json::Value>) -> String {
    let mut header = jsonwebtoken::Header::new(jsonwebtoken::Algorithm::RS256);
    header.x5c = Some(vec![client.certificate.clone()]);
    jsonwebtoken::encode(
        &header,
        claims,
        &jsonwebtoken::EncodingKey::from_rsa_pem(&client.key).unwrap(),
    )
    .unwrap()
}

fn evidence() -> ishare::delegation_evidence::DelegationEvidenceContainer {
    ishare::delegation_evidence::DelegationEvidenceContainer {
        delegation_evidence: ishare::delegation_evidence::DelegationEvidence {
            not_before: 100,
            not_on_or_after: 200,
            policy_issuer: "NL_ISSUER".to_owned(),
            target: ishare::delegation_evidence::DelegationTarget {
                access_subject: "NL_SUBJECT".to_owned(),
            },
            policy_sets: vec![],
        },
    }
}

#[test]
fn framework_vouches_for_its_own_and_for_nothing_else() {
    let client = identity("NL123");
    let provider = provider(&client);
    let own = client.registry.create_client_assertion("NL123".to_owned()).unwrap();
    assert_eq!(provider.validate_token(&own), Ok(true));
    let stranger = identity("NL123");
    let foreign = stranger.registry.create_client_assertion("NL123".to_owned()).unwrap();
    assert_eq!(provider.validate_token(&foreign), Ok(false));
    assert_eq!(
        provider.validate_token("no token at all"),
        Err(ChainFailure::Unreadable("Error decoding header".to_owned()))
    );
    assert_eq!(
        provider.validate_token(&unsigned_token(None, 1000)),
        Err(ChainFailure::Unreadable("x5c is missing from header".to_owned()))
    );
    assert_eq!(
        provider.validate_token(&unsigned_token(Some(vec!["AAAA".to_owned()]), 1000)),
        Err(ChainFailure::Unreadable("Error creating certificate from pem".to_owned()))
    );
}

#[test]
fn chain_without_a_certificate_is_refused_at_every_door() {
    let client = identity("NL123");
    let provider = provider(&client);
    let token = unsigned_token(Some(vec![]), 1000);
    assert_eq!(
        provider.validate_token(&token),
        Err(ChainFailure::Unreadable("x5c header is empty".to_owned()))
    );
    assert_eq!(
        provider.decode_token(now(), &token, "NL123", Some("NL123")),
        Err("x5c header is empty".to_owned())
    );
    assert!(!provider.handle_previous_step_client_assertion(now(), "NL123", &token, "NL123", "NL123"));
    let cache = TokenCache::new();
    let (flow, action) = provider.handle_m2m_authentication(
        &cache, now(), "NL123", GRANT_TYPE, &token, ASSERTION_TYPE, SCOPE, true,
    );
    assert!(flow.is_finished());
    assert_eq!(
        action,
        M2mAction::Rejected {
            error: AppError::expected(
                400,
                "client assertion is invalid".to_owned(),
                "x5c header is empty".to_owned()
            )
        }
    );
}

#[test]
fn time_of_issue_at_the_end_of_time_is_refused() {
    let client = identity("NL123");
    let provider = provider(&client);
    let token = unsigned_token(Some(vec![client.certificate.clone()]), u64::MAX);
    assert_eq!(
        provider.decode_token(now(), &token, "NL123", Some("NL123")),
        Err("issued at is out of range".to_owned())
    );
    let edge = unsigned_token(Some(vec![client.certificate.clone()]), u64::MAX - 29);
    assert_eq!(
        provider.decode_token(now(), &edge, "NL123", Some("NL123")),
        Err("issued at is out of range".to_owned())
    );
    let inside = unsigned_token(Some(vec![client.certificate.clone()]), u64::MAX - 30);
    let refused = provider.decode_token(now(), &inside, "NL123", Some("NL123"));
    assert!(refused.is_err());
    assert_ne!(refused, Err("issued at is out of range".to_owned()));
    assert!(!provider.handle_previous_step_client_assertion(now(), "NL123", &token, "NL123", "NL123"));

    let signed = self_signed_token(&client, &standard_claims("NL123", u64::MAX, u64::MAX));
    assert_eq!(provider.validate_token(&signed), Ok(true));
    let cache = TokenCache::new();
    let (flow, action) = provider.handle_m2m_authentication(
        &cache, now(), "NL123", GRANT_TYPE, &signed, ASSERTION_TYPE, SCOPE, true,
    );
    assert!(flow.is_finished());
    assert_eq!(
        action,
        M2mAction::Rejected {
            error: AppError::expected(
                400,
                "client assertion is invalid".to_owned(),
                "issued at is out of range".to_owned()
            )
        }
    );
}

#[test]
fn decoded_assertion_is_bound_to_the_client_and_the_audience() {
    let client = identity("NL123");
    let provider = provider(&client);
    let token = client.registry.create_client_assertion("NL456".to_owned()).unwrap();
    let decoded = provider.decode_token(now(), &token, "NL123", Some("NL456")).unwrap();
    assert_eq!(decoded.issuer, "NL123");
    assert_eq!(decoded.subject, "NL123");
    assert_eq!(decoded.audience, "NL456");
    assert_eq!(decoded.certificate_chain.unwrap()[0], client.certificate);
    assert!(provider.decode_token(now(), &token, "NL123", Some("NL789")).is_err());
    assert!(provider.decode_token(now(), &token, "NL999", Some("NL456")).is_err());
    assert!(provider.decode_token(now(), &token, "NL123", None).is_err());
    let to_self = client.registry.create_client_assertion("NL123".to_owned()).unwrap();
    assert!(provider.decode_token(now(), &to_self, "NL123", None).is_ok());
    assert!(provider.decode_token(-1, &to_self, "NL123", None).is_err());
    assert!(provider.decode_token(i64::MAX, &to_self, "NL123", None).is_err());
}

#[test]
fn expired_and_ill_timed_assertions_do_not_decode() {
    let client = identity("NL123");
    let provider = provider(&client);
    let at = now() as u64;
    let long_lived = self_signed_token(&client, &standard_claims("NL123", at, at + 31));
    assert_eq!(
        provider.decode_token(now(), &long_lived, "NL123", None),
        Err("ExpNotIatPlus30".to_owned())
    );
    let old = self_signed_token(&client, &standard_claims("NL123", 1000, 1030));
    assert!(provider.decode_token(now(), &old, "NL123", None).is_err());
    let mut other_subject = standard_claims("NL123", at, at + 30);
    other_subject.insert("sub".to_owned(), text("NL456"));
    assert_eq!(
        provider.decode_token(now(), &self_signed_token(&client, &other_subject), "NL123", None),
        Err("SubDoesNotMatchIss".to_owned())
    );
}

#[test]
fn probe_accepts_either_audience_and_nothing_else() {
    let requestor = identity("NL123");
    let registry = identity("NL_REGISTRY");
    let provider = provider(&registry);
    let token = requestor.registry.create_client_assertion("NL_ISSUER".to_owned()).unwrap();
    let at = now();
    assert!(provider.handle_previous_step_client_assertion(at, "NL123", &token, "NL_ISSUER", "NL_SUBJECT"));
    assert!(provider.handle_previous_step_client_assertion(at, "NL123", &token, "NL_OTHER", "NL_ISSUER"));
    assert!(provider.handle_previous_step_client_assertion(at, "NL123", &token, "NL_ISSUER", "NL_ISSUER"));
    assert!(!provider.handle_previous_step_client_assertion(at, "NL123", &token, "NL_OTHER", "NL_SUBJECT"));
    assert!(!provider.handle_previous_step_client_assertion(at, "NL999", &token, "NL_ISSUER", "NL_SUBJECT"));
    assert!(!provider.handle_previous_step_client_assertion(at, "NL123", "garbage", "NL_ISSUER", "NL_SUBJECT"));
    assert!(!provider.handle_previous_step_client_assertion(at, "NL123", "", "NL_ISSUER", "NL_SUBJECT"));
    assert!(!provider.handle_previous_step_client_assertion(1000, "NL123", &token, "NL_ISSUER", "NL_SUBJECT"));
}

#[test]
fn delegation_token_carries_the_evidence_to_its_audience() {
    let registry = identity("NL123");
    let provider = provider(&registry);
    let token = provider.create_delegation_token("NL456", &evidence()).unwrap();
    let claims = claims_of(&token);
    assert_eq!(claims["aud"], text("NL456"));
    assert_eq!(claims["iss"], text("NL123"));
    assert_eq!(claims["delegationEvidence"]["policyIssuer"], text("NL_ISSUER"));
    assert_eq!(claims["delegationEvidence"]["target"]["accessSubject"], text("NL_SUBJECT"));
    assert_eq!(claims["delegationEvidence"]["notBefore"], serde_json::Value::from(100));
    assert_eq!(claims["delegationEvidence"]["notOnOrAfter"], serde_json::Value::from(200));
    assert_eq!(provider.validate_token(&token), Ok(true));
    assert!(provider.decode_token(now(), &token, "NL123", Some("NL456")).is_ok());
}

#[test]
fn capabilities_token_carries_the_description_to_its_audience() {
    let registry = identity("NL123");
    let provider = provider(&registry);
    let capabilities = ishare::ishare::Capabilities {
        capabilities_info: ishare::ishare::CapabilitiesInfo {
            party_id: "NL123".to_owned(),
            ishare_roles: vec!["AuthorisationRegistry".to_owned()],
            supported_versions: vec![ishare::ishare::SupportedVersion {
                version: "2.0".to_owned(),
                supported_features: vec![],
            }],
        },
    };
    let token = provider.create_capabilities_token("NL456", &capabilities).unwrap();
    let claims = claims_of(&token);
    assert_eq!(claims["aud"], text("NL456"));
    assert_eq!(claims["iss"], text("NL123"));
    assert_eq!(claims["capabilities_info"]["party_id"], text("NL123"));
    assert_eq!(claims["capabilities_info"]["ishare_roles"][0], text("AuthorisationRegistry"));
    assert_eq!(claims["capabilities_info"]["supported_versions"][0]["version"], text("2.0"));
}

#[test]
fn login_request_is_signed_for_the_identity_provider() {
    let registry = identity("NL123");
    let provider = provider(&registry);
    let auth_claims = vec![
        ("response_type".to_owned(), "code".to_owned()),
        ("redirect_uri".to_owned(), "https://registry.example/callback".to_owned()),
    ];
    let request = provider.handle_h2m_redirect_url_request(&auth_claims).unwrap();
    let claims = claims_of(&request);
    assert_eq!(claims["aud"], text("EU.EORI.IDP"));
    assert_eq!(claims["iss"], text("NL123"));
    assert_eq!(claims["response_type"], text("code"));
    assert_eq!(claims["redirect_uri"], text("https://registry.example/callback"));
    let bare = provider.handle_h2m_redirect_url_request(&vec![]).unwrap();
    assert_eq!(claims_of(&bare)["aud"], text("EU.EORI.IDP"));
}

fn person() -> IdentityClaims {
    IdentityClaims {
        subject: "person-1".to_owned(),
        company_id: "NL123".to_owned(),
        company_name: "Company NL123".to_owned(),
        email: "ada@example.com".to_owned(),
        first_name: "Ada".to_owned(),
        last_name: "Lovelace".to_owned(),
        realm_access_roles: vec!["admin".to_owned(), "reader".to_owned()],
    }
}

#[test]
fn login_provisions_company_then_person_and_returns_both() {
    let registry = identity("NL123");
    let provider = provider(&registry);
    let (mut flow, action) = provider.handle_h2m_auth_callback("https://registry.example", "code-1");
    let assertion = match action {
        H2mAction::FetchIdToken { server_url, code, client_assertion } => {
            assert_eq!(server_url, "https://registry.example");
            assert_eq!(code, "code-1");
            client_assertion
        }
        other => panic!("expected the exchange of the code, got {:?}", other),
    };
    assert_eq!(claims_of(&assertion)["aud"], text("EU.EORI.IDP"));
    assert!(!flow.is_finished());
    assert_eq!(
        flow.advance(H2mEvent::IdTokenFetched { outcome: Ok("id-token".to_owned()) }),
        H2mAction::DecodeIdentity { id_token: "id-token".to_owned() }
    );
    assert_eq!(
        flow.advance(H2mEvent::IdentityDecoded { outcome: Ok(person()) }),
        H2mAction::ProvisionCompany {
            external_id: "NL123".to_owned(),
            display_name: "Company NL123".to_owned(),
        }
    );
    assert_eq!(
        flow.advance(H2mEvent::CompanyProvisioned { outcome: Ok("company-7".to_owned()) }),
        H2mAction::ProvisionUser {
            subject: "person-1".to_owned(),
            email: "ada@example.com".to_owned(),
            fullname: "Ada Lovelace".to_owned(),
            company_id: "company-7".to_owned(),
            idp_identifier: "EU.EORI.IDP".to_owned(),
            idp_url: "https://idp.example".to_owned(),
        }
    );
    assert_eq!(
        flow.advance(H2mEvent::UserProvisioned { outcome: Ok("user-9".to_owned()) }),
        H2mAction::LoggedIn {
            company_id: "company-7".to_owned(),
            user: UserOption {
                user_id: "user-9".to_owned(),
                realm_access_roles: vec!["admin".to_owned(), "reader".to_owned()],
            },
        }
    );
    assert!(flow.is_finished());
}

#[test]
fn login_stops_at_the_first_failure() {
    let registry = identity("NL123");
    let provider = provider(&registry);
    let failures: Vec<(Vec<H2mEvent>, H2mEvent, &str)> = vec![
        (
            vec![],
            H2mEvent::IdTokenFetched { outcome: Err("boom".to_owned()) },
            "Error fetching token from idp",
        ),
        (
            vec![H2mEvent::IdTokenFetched { outcome: Ok("t".to_owned()) }],
            H2mEvent::IdentityDecoded { outcome: Err("boom".to_owned()) },
            "Error decoding id_token",
        ),
        (
            vec![
                H2mEvent::IdTokenFetched { outcome: Ok("t".to_owned()) },
                H2mEvent::IdentityDecoded { outcome: Ok(person()) },
            ],
            H2mEvent::CompanyProvisioned { outcome: Err("boom".to_owned()) },
            "Error inserting company into db",
        ),
        (
            vec![
                H2mEvent::IdTokenFetched { outcome: Ok("t".to_owned()) },
                H2mEvent::IdentityDecoded { outcome: Ok(person()) },
                H2mEvent::CompanyProvisioned { outcome: Ok("c".to_owned()) },
            ],
            H2mEvent::UserProvisioned { outcome: Err("boom".to_owned()) },
            "Error inserting user into db",
        ),
        (
            vec![],
            H2mEvent::UserProvisioned { outcome: Ok("u".to_owned()) },
            "login flow out of order",
        ),
    ];
    for (before, failing, context) in failures {
        let (mut flow, _) = provider.handle_h2m_auth_callback("https://registry.example", "code");
        for event in before {
            flow.advance(event);
        }
        match flow.advance(failing) {
            H2mAction::Rejected { error: AppError::Unexpected(failure) } => {
                assert_eq!(failure.context, context)
            }
            other => panic!("expected a failure, got {:?}", other),
        }
        assert!(flow.is_finished());
        assert!(matches!(
            flow.advance(H2mEvent::IdTokenFetched { outcome: Ok("t".to_owned()) }),
            H2mAction::Rejected { .. }
        ));
    }
}

#[test]
fn lookup_asks_with_the_cached_token_or_after_an_exchange() {
    let registry = identity("NL123");
    let provider = provider(&registry);
    let mut cache = TokenCache::new();
    let (mut lookup, action) = provider.validate_party(&cache, 1000, "NL456");
    assert_eq!(lookup.stage(), PartyLookupStage::AwaitingSatelliteToken);
    match action {
        PartyLookupAction::ExchangeSatelliteToken { client_assertion } => {
            assert_eq!(claims_of(&client_assertion)["aud"], text("EU.EORI.SATELLITE"))
        }
        other => panic!("expected an exchange, got {:?}", other),
    }
    let action = lookup.advance(
        &mut cache,
        1000,
        PartyLookupEvent::SatelliteTokenExchanged {
            outcome: Ok(TokenResponse { access_token: "A".to_owned(), expires_in: 300 }),
        },
    );
    assert_eq!(
        action,
        PartyLookupAction::ValidateParty {
            eori: "NL456".to_owned(),
            bearer_token: "A".to_owned(),
            now: 1000,
        }
    );
    assert_eq!(cache.expires_at(), Some(1300));
    let found = PartyInfo {
        party_id: "NL456".to_owned(),
        party_name: "Company NL456".to_owned(),
        certificates: vec!["cert".to_owned()],
    };
    assert_eq!(
        lookup.advance(&mut cache, 1001, PartyLookupEvent::PartyValidated { outcome: Ok(found.clone()) }),
        PartyLookupAction::Validated { party: found }
    );
    assert_eq!(lookup.stage(), PartyLookupStage::Finished);

    let (lookup, action) = provider.validate_party(&cache, 1200, "NL789");
    assert_eq!(lookup.stage(), PartyLookupStage::AwaitingParty);
    assert_eq!(
        action,
        PartyLookupAction::ValidateParty {
            eori: "NL789".to_owned(),
            bearer_token: "A".to_owned(),
            now: 1200,
        }
    );
}

#[test]
fn lookup_tells_an_unknown_party_from_a_broken_line() {
    let registry = identity("NL123");
    let provider = provider(&registry);
    let mut cache = TokenCache::new();
    cache.update("A".to_owned(), 2000);
    let typed = [
        ValidatePartyError::NotFound("NL456".to_owned()),
        ValidatePartyError::Inactive("NL456".to_owned()),
        ValidatePartyError::AdherenceExpired,
    ];
    for error in typed {
        let (mut lookup, _) = provider.validate_party(&cache, 1000, "NL456");
        assert_eq!(
            lookup.advance(&mut cache, 1000, PartyLookupEvent::PartyValidated { outcome: Err(error.clone()) }),
            PartyLookupAction::Failed { error }
        );
    }
    let (mut lookup, _) = provider.validate_party(&cache, 1000, "NL456");
    assert_eq!(
        lookup.advance(
            &mut cache,
            1000,
            PartyLookupEvent::PartyValidated {
                outcome: Err(ValidatePartyError::Unexpected("connection refused".to_owned()))
            }
        ),
        PartyLookupAction::Failed {
            error: ValidatePartyError::Unexpected(
                "error validating company 'NL456' is ishare party: connection refused".to_owned()
            )
        }
    );

    let mut empty = TokenCache::new();
    let (mut lookup, _) = provider.validate_party(&empty, 1000, "NL456");
    assert_eq!(
        lookup.advance(
            &mut empty,
            1000,
            PartyLookupEvent::SatelliteTokenExchanged { outcome: Err("timeout".to_owned()) }
        ),
        PartyLookupAction::Failed {
            error: ValidatePartyError::Unexpected(
                "Error getting sattelite token: Error retrieving satelite access token: timeout"
                    .to_owned()
            )
        }
    );
    assert!(empty.is_invalid(1000));
    assert!(matches!(
        lookup.advance(
            &mut empty,
            1000,
            PartyLookupEvent::PartyValidated {
                outcome: Err(ValidatePartyError::NotFound("NL456".to_owned()))
            }
        ),
        PartyLookupAction::Failed { error: ValidatePartyError::Unexpected(_) }
    ));
}

/// An identity whose key store names no authority: it cannot write the chain
/// into a token's header, so every signing fails with a message.
fn identity_without_authorities(eori: &str) -> Arc<ishare::ishare::ISHARE> {
    let key = openssl::pkey::PKey::from_rsa(openssl::rsa::Rsa::generate(2048).unwrap()).unwrap();
    let mut subject = openssl::x509::X509NameBuilder::new().unwrap();
    subject.append_entry_by_text("CN", eori).unwrap();
    let subject = subject.build();
    let mut builder = openssl::x509::X509Builder::new().unwrap();
    builder.set_version(2).unwrap();
    builder.set_subject_name(&subject).unwrap();
    builder.set_issuer_name(&subject).unwrap();
    builder.set_pubkey(&key).unwrap();
    builder.set_not_before(&openssl::asn1::Asn1Time::days_from_now(0).unwrap()).unwrap();
    builder.set_not_after(&openssl::asn1::Asn1Time::days_from_now(30).unwrap()).unwrap();
    builder.sign(&key, openssl::hash::MessageDigest::sha256()).unwrap();
    let certificate = builder.build();
    let mut store = openssl::pkcs12::Pkcs12::builder();
    store.name(eori);
    store.pkey(&key);
    store.cert(&certificate);
    let store = store.build2("secret").unwrap();
    let mut store_file = tempfile::NamedTempFile::new().unwrap();
    store_file.write_all(&store.to_der().unwrap()).unwrap();
    store_file.flush().unwrap();
    let mut root_file = tempfile::NamedTempFile::new().unwrap();
    root_file.write_all(&certificate.to_pem().unwrap()).unwrap();
    root_file.flush().unwrap();
    Arc::new(
        ishare::ishare::ISHARE::new(
            store_file.path().to_str().unwrap().to_owned(),
            "secret".to_owned(),
            "http://localhost:1".to_owned(),
            Some(root_file.path().to_str().unwrap().to_owned()),
            eori.to_owned(),
            "EU.EORI.SATELLITE".to_owned(),
        )
        .unwrap(),
    )
}

#[test]
fn failure_to_sign_is_nobodys_fault_and_ends_what_was_begun() {
    let registry = identity_without_authorities("NL123");
    let connector = IdpConnector::new(
        "https://idp.example".to_owned(),
        "NL123".to_owned(),
        "EU.EORI.IDP".to_owned(),
    );
    let provider = ISHAREProvider::new(registry, &connector);
    let failure = AppError::unexpected("Error creating client assertion", "Unexpected error".to_owned());
    let mut cache = TokenCache::new();

    assert_eq!(
        provider.get_satellite_token(&cache, 1000),
        authorization_registry::satellite_token::TokenPlan::Failed { error: failure.clone() }
    );
    assert_eq!(
        provider.create_delegation_token("NL456", &evidence()),
        Err(AppError::unexpected("Error creating delegation token", "Unexpected error".to_owned()))
    );
    assert_eq!(
        provider.handle_h2m_redirect_url_request(&vec![]),
        Err(failure.clone())
    );
    let (login, action) = provider.handle_h2m_auth_callback("https://registry.example", "code");
    assert!(login.is_finished());
    assert_eq!(action, H2mAction::Rejected { error: failure.clone() });

    let (lookup, action) = provider.validate_party(&cache, 1000, "NL456");
    assert_eq!(lookup.stage(), PartyLookupStage::Finished);
    assert_eq!(
        action,
        PartyLookupAction::Failed {
            error: ValidatePartyError::Unexpected(
                "Error getting sattelite token: Error creating client assertion: Unexpected error"
                    .to_owned()
            )
        }
    );

    let client = identity("NL456");
    let assertion = client.registry.create_client_assertion("NL456".to_owned()).unwrap();
    let stranger_root = provider.handle_m2m_authentication(
        &cache, now(), "NL456", GRANT_TYPE, &assertion, ASSERTION_TYPE, SCOPE, true,
    );
    assert!(stranger_root.0.is_finished());

    cache.update("A".to_owned(), 2000);
    assert_eq!(
        provider.get_satellite_token(&cache, 1000),
        authorization_registry::satellite_token::TokenPlan::Cached { access_token: "A".to_owned() }
    );
}

#[test]
fn probe_hands_back_why_each_decoding_said_no() {
    let requestor = identity("NL123");
    let registry = identity("NL_REGISTRY");
    let provider = provider(&registry);
    let token = requestor.registry.create_client_assertion("NL_ISSUER".to_owned()).unwrap();
    let at = now();

    let both = provider.probe_previous_step(at, "NL123", &token, "NL_ISSUER", "NL_ISSUER");
    assert_eq!(
        both,
        PreviousStep { inherited: true, policy_issuer_refusal: None, access_subject_refusal: None }
    );

    let first = provider.probe_previous_step(at, "NL123", &token, "NL_ISSUER", "NL_SUBJECT");
    assert!(first.inherited);
    assert_eq!(first.policy_issuer_refusal, None);
    assert!(first.access_subject_refusal.unwrap().contains("InvalidAudience"));

    let second = provider.probe_previous_step(at, "NL123", &token, "NL_OTHER", "NL_ISSUER");
    assert!(second.inherited);
    assert!(second.policy_issuer_refusal.unwrap().contains("InvalidAudience"));
    assert_eq!(second.access_subject_refusal, None);

    let stranger = provider.probe_previous_step(at, "NL999", &token, "NL_ISSUER", "NL_SUBJECT");
    assert!(!stranger.inherited);
    assert_eq!(stranger.policy_issuer_refusal, Some("IssDoesntMatchClientId".to_owned()));
    assert!(stranger.access_subject_refusal.is_some());

    let early = provider.probe_previous_step(1000, "NL123", &token, "NL_ISSUER", "NL_SUBJECT");
    assert!(!early.inherited);
    assert_eq!(early.policy_issuer_refusal, Some("IatAfterNow".to_owned()));

    let empty = unsigned_token(Some(vec![]), 1000);
    assert_eq!(
        provider.probe_previous_step(at, "NL123", &empty, "NL_ISSUER", "NL_SUBJECT"),
        PreviousStep {
            inherited: false,
            policy_issuer_refusal: Some("x5c header is empty".to_owned()),
            access_subject_refusal: Some("x5c header is empty".to_owned()),
        }
    );
}

#[test]
fn login_request_carries_each_claim_given_once() {
    let registry = identity("NL123");
    let provider = provider(&registry);
    let auth_claims = vec![
        ("state".to_owned(), "first".to_owned()),
        ("nonce".to_owned(), "n-1".to_owned()),
        ("state".to_owned(), "last".to_owned()),
    ];
    let request = provider.handle_h2m_redirect_url_request(&auth_claims).unwrap();
    let claims = claims_of(&request);
    assert_eq!(claims["nonce"], text("n-1"));
    assert_eq!(claims["aud"], text("EU.EORI.IDP"));
    assert_eq!(claims["iss"], text("NL123"));
}
