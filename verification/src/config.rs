//! Deployment settings of the registry, and the values that stand in for the
//! settings an operator may leave out.

use vstd::prelude::*;

verus! {

/// Address the service listens on when none is configured.
pub fn default_listen_address() -> (address: String)
    ensures
        address@ == "0.0.0.0:4000"@,
{
    "0.0.0.0:4000".to_string()
}

/// Lifetime, in seconds, of the tokens the registry issues for itself when none is configured.
pub fn default_jwt_expiry_seconds() -> (seconds: u64)
    ensures
        seconds == 3600,
{
    3600
}

/// Lifetime, in seconds, of issued delegation evidence when none is configured.
pub fn default_de_expiry_seconds() -> (seconds: i64)
    ensures
        seconds == 3600,
{
    3600
}

/// Path prefix under which the routes are served when none is configured.
pub fn default_deploy_route() -> (route: String)
    ensures
        route@ == "/api"@,
{
    "/api".to_owned()
}

/// Cross-origin checks are off unless the configuration turns them on.
pub fn default_disable_cors_check() -> (disabled: bool)
    ensures
        disabled,
{
    true
}

/// Machine clients must present a certificate known to the satellite unless
/// the configuration relaxes this.
pub fn default_validate_m2m_certificate() -> (validate: bool)
    ensures
        validate,
{
    true
}

/// Service providers may ask for delegation evidence unless the configuration forbids it.
pub fn default_delegation_allows_service_providers() -> (allowed: bool)
    ensures
        allowed,
{
    true
}

/// The settings of one deployment, complete: every optional setting has its value.
#[derive(Clone, Debug)]
pub struct Config {
    pub client_eori: String,
    pub idp_url: String,
    pub idp_eori: String,
    pub client_cert_path: String,
    pub client_cert_pass: String,
    pub satellite_url: String,
    pub ishare_ca_path: String,
    pub satellite_eori: String,
    pub jwt_secret: String,
    pub jwt_expiry_seconds: u64,
    pub database_url: String,
    pub listen_address: String,
    pub de_expiry_seconds: i64,
    pub deploy_route: String,
    pub seed_folder: Option<String>,
    pub disable_cors_check: bool,
    pub validate_m2m_certificate: bool,
    pub delegation_allows_service_providers: bool,
}

/// The settings as an operator wrote them: the optional ones may be absent.
#[derive(Clone, Debug)]
pub struct ConfigFile {
    pub client_eori: String,
    pub idp_url: String,
    pub idp_eori: String,
    pub client_cert_path: String,
    pub client_cert_pass: String,
    pub satellite_url: String,
    pub ishare_ca_path: String,
    pub satellite_eori: String,
    pub jwt_secret: String,
    pub jwt_expiry_seconds: Option<u64>,
    pub database_url: String,
    pub listen_address: Option<String>,
    pub de_expiry_seconds: Option<i64>,
    pub deploy_route: Option<String>,
    pub seed_folder: Option<String>,
    pub disable_cors_check: Option<bool>,
    pub validate_m2m_certificate: Option<bool>,
    pub delegation_allows_service_providers: Option<bool>,
}

/// The text of an optional setting: what was written, or the fallback.
pub open spec fn text_or(written: Option<String>, fallback: Seq<char>) -> Seq<char> {
    match written {
        Some(text) => text@,
        None => fallback,
    }
}

/// The value of an optional switch: what was written, or `true`, which is the
/// fallback of every switch of the configuration.
pub open spec fn switch_or_on(written: Option<bool>) -> bool {
    match written {
        Some(value) => value,
        None => true,
    }
}

impl Config {
    /// Completes the written settings: every setting that was written is kept as
    /// it is, and every optional one that was left out gets its fallback.
    pub fn from_file(file: ConfigFile) -> (config: Config)
        ensures
            config.client_eori@ == file.client_eori@,
            config.idp_url@ == file.idp_url@,
            config.idp_eori@ == file.idp_eori@,
            config.client_cert_path@ == file.client_cert_path@,
            config.client_cert_pass@ == file.client_cert_pass@,
            config.satellite_url@ == file.satellite_url@,
            config.ishare_ca_path@ == file.ishare_ca_path@,
            config.satellite_eori@ == file.satellite_eori@,
            config.jwt_secret@ == file.jwt_secret@,
            config.database_url@ == file.database_url@,
            config.seed_folder == file.seed_folder,
            config.jwt_expiry_seconds == match file.jwt_expiry_seconds {
                Some(seconds) => seconds,
                None => 3600u64,
            },
            config.de_expiry_seconds == match file.de_expiry_seconds {
                Some(seconds) => seconds,
                None => 3600i64,
            },
            config.listen_address@ == text_or(file.listen_address, "0.0.0.0:4000"@),
            config.deploy_route@ == text_or(file.deploy_route, "/api"@),
            config.disable_cors_check == switch_or_on(file.disable_cors_check),
            config.validate_m2m_certificate == switch_or_on(file.validate_m2m_certificate),
            config.delegation_allows_service_providers == switch_or_on(
                file.delegation_allows_service_providers,
            ),
    {
        Config {
            client_eori: file.client_eori,
            idp_url: file.idp_url,
            idp_eori: file.idp_eori,
            client_cert_path: file.client_cert_path,
            client_cert_pass: file.client_cert_pass,
            satellite_url: file.satellite_url,
            ishare_ca_path: file.ishare_ca_path,
            satellite_eori: file.satellite_eori,
            jwt_secret: file.jwt_secret,
            jwt_expiry_seconds: match file.jwt_expiry_seconds {
                Some(seconds) => seconds,
                None => default_jwt_expiry_seconds(),
            },
            database_url: file.database_url,
            listen_address: match file.listen_address {
                Some(address) => address,
                None => default_listen_address(),
            },
            de_expiry_seconds: match file.de_expiry_seconds {
                Some(seconds) => seconds,
                None => default_de_expiry_seconds(),
            },
            deploy_route: match file.deploy_route {
                Some(route) => route,
                None => default_deploy_route(),
            },
            seed_folder: file.seed_folder,
            disable_cors_check: match file.disable_cors_check {
                Some(value) => value,
                None => default_disable_cors_check(),
            },
            validate_m2m_certificate: match file.validate_m2m_certificate {
                Some(value) => value,
                None => default_validate_m2m_certificate(),
            },
            delegation_allows_service_providers: match file.delegation_allows_service_providers {
                Some(value) => value,
                None => default_delegation_allows_service_providers(),
            },
        }
    }
}

} // verus!
