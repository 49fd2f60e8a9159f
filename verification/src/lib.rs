//! The trust-negotiation core of an authorization registry in a data-sharing
//! trust framework.
//!
//! The registry authenticates counterparties by the signed assertions they
//! present, asks the framework's satellite whether it knows them, and signs
//! what it issues. This library holds the decisions of that work, each with
//! its contract, and proofs of what the decisions guarantee together. Calls to
//! the satellite, to the identity provider and to the store are not made
//! here: a flow hands out one request at a time, its caller performs it, and
//! the flow takes the answer.
//!
//! - [`token_cache`], [`satellite_token`]: the registry's own bearer token.
//! - [`assertion`], [`party`], [`party_lookup`]: client assertions, parties,
//!   and the question whether the satellite knows a party.
//! - [`m2m`], [`h2m`]: the authentication of machines and the login of people.
//! - [`provider`]: the registry's identity and all that is done under it.
//! - [`framework`]: every call into the framework's own library, and what is
//!   believed of it without proof.
//! - [`config`], [`error`], [`idp`], [`time`]: settings, failures, the
//!   identity provider's coordinates, and the clock.

pub mod assertion;
pub mod config;
pub mod error;
pub mod framework;
pub mod h2m;
pub mod idp;
pub mod m2m;
pub mod party;
pub mod party_lookup;
pub mod provider;
pub mod satellite_token;
pub mod time;
pub mod token_cache;
