//! Bootstrap and supervision logic for a state-synced blockchain node:
//! trust-parameter resolution from RPC responses, launch-environment
//! construction, first-run initialization planning, and an ordered event
//! model for relaying the daemon's output streams.

pub mod environment;
pub mod init;
pub mod numeric;
pub mod rpc;
pub mod supervisor;
