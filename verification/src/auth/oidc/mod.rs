//! Signing in through an OpenID Connect provider.

pub mod login;
