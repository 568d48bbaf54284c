//! Signing in with ChatGPT (OpenAI Codex).

pub mod login;
pub mod wire;
