//! Signing in with an Anthropic subscription.

pub mod login;
pub mod refresh;
pub mod wire;
