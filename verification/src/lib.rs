//! Protocol engines of a local agent that bridges network scanners with a
//! document-management backend: scanner discovery and arbitration, the eSCL
//! scan state machine, the backend command poller, the folder watcher,
//! pairing, and the shared agent state.
//!
//! Every engine is a transition system without I/O. It says which request
//! to send, which file to read or how long to wait, and takes a report of
//! what happened. Network, file system, credential vault and timers belong
//! to the embedding program.

pub mod text;
mod clock;
pub mod http;
pub mod vault;
pub mod discovery;
pub mod escl;
pub mod poller;
pub mod folder;
pub mod pairing;
pub mod agent;
