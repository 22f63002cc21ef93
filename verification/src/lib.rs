//! Controller-side bookkeeping for remote agents: one live session per
//! connected agent, the connectivity state machine of a session, and the
//! issue / cancel / poll protocol for asynchronous commands and file
//! transfers.
//!
//! The crate is verified with Verus. Three calls leave it and are trusted
//! rather than proved: the send on a session's channel (`transport`), the
//! draw of a random identifier (`ident`), and the compression of file
//! contents (`compress`). Callers hold a registry behind a lock of their
//! own: the operations that change a session take `&mut self`, polls and
//! lookups take `&self`, and none of them waits for an agent.

pub mod agent;
pub mod compress;
pub mod entity;
pub mod error;
pub mod ident;
pub mod laws;
pub mod outcome;
pub mod payload;
pub mod registry;
pub mod server;
pub mod service;
pub mod session;
pub mod status;
pub mod transport;

pub use agent::Agent;
pub use error::AgentError;
pub use outcome::{AgentCommand, AgentFile};
pub use payload::Payload;
pub use registry::Registry;
pub use server::Server;
pub use service::Service;
pub use status::AgentStatus;
