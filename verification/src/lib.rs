//! Session adapter for a coding agent that speaks the Agent Client Protocol
//! (JSON-RPC 2.0 over a WebSocket), together with the pure helpers the
//! desktop shell needs around it.

pub mod adapter;
pub mod artifact;
pub mod callbacks;
pub mod events;
pub mod history;
pub mod invariants;
pub mod json;
pub mod launch;
pub mod machine;
pub mod model_resolver;
pub mod models;
pub mod protocol;
pub mod registry;
pub mod router;
pub mod rpc;
pub mod session_params;
pub mod storage;
pub mod text;
pub mod transport;
