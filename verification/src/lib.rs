//! Provider failover, subscription sign-in, JavaScript dependency tracking,
//! subagent fan-out and desktop tools.

pub mod auth;
pub mod failover;
pub mod fanout;
pub mod js_deps;
pub mod json;
pub mod radix64;
pub mod sky;
pub mod text;
