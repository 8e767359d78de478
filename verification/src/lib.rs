//! Token-trust verification: establishes that an access token, an identity
//! token and a userinfo token are authentic, issued by a trusted authority,
//! unexpired and mutually consistent before their claims are handed on.

pub mod text;
pub mod decimal;
pub mod algorithm;
pub mod error;
pub mod jose;
pub mod claims;
pub mod keys;
pub mod issuer;
pub mod key_source;
pub mod registry;
pub mod decoding;
pub mod service;
