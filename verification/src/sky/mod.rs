//! Sky Computer Use tools, which talk to a long-lived `sky rpc` process.

pub mod inputs;
pub mod locate;
pub mod output;
pub mod rpc;
pub mod screenshot;
pub mod tools;
