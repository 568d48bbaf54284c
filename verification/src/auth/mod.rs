//! Signing in with a subscription provider.

pub mod anthropic;
pub mod encoding;
pub mod meta;
pub mod model;
pub mod oidc;
pub mod openai_codex;
pub mod pkce;
pub mod pkce_loopback;
