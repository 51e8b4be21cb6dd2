//! Host-side runner for sandboxed compute modules: the host/guest ABI, the
//! gas ledger that meters host services, and the decisions of one invocation.

pub mod bridge;
pub mod cli;
pub mod engine;
pub mod errors;
pub mod gas;
pub mod memory;
pub mod wire;
