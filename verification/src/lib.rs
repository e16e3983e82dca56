//! Verified core logic of the scuffle.cloud authentication and e-mail services.
//!
//! The library holds the rules that the services apply: entity names for the
//! authorization engine, identifier formats, request signing checks, session
//! and multi-factor decisions, e-mail composition and configuration defaults.
//! The network, database and template plumbing lives outside the library and
//! hands plain values to the functions here.

pub mod chars;
pub mod entity_type_name;
pub mod text;
pub mod numbers;
pub mod config;
pub mod ids;
pub mod encoding;
pub mod headers;
pub mod auth;
pub mod geoip;
pub mod ip_text;
pub mod models;
pub mod cedar;
pub mod emails;
pub mod mfa;
pub mod tokens;
pub mod totp;
pub mod google;
pub mod sessions;
pub mod operation;
pub mod email_service;
pub mod services;
pub mod pb;
pub mod login;
pub mod requests;
