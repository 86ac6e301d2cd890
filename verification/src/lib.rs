//! Host side of a resource bridge between a sandboxed guest module and the
//! objects its host keeps for it.
//!
//! A guest names each object by a handle, an integer that the host chose.
//! [`table::HandleTable`] keeps the objects; [`adapter::InterfaceAdapter`]
//! serves the guest's calls on it and records what was created and
//! destroyed; [`session::SandboxSession`] carries one guest from engine
//! configuration to teardown, and releases at the end what the guest left
//! behind. [`laws`] states what holds of every table and every session.

pub mod adapter;
pub mod engine;
pub mod error;
pub mod laws;
pub mod object;
pub mod session;
pub mod table;

pub use adapter::{AuditRecord, InterfaceAdapter};
pub use error::BridgeError;
pub use object::CapabilityObject;
pub use session::{Action, EngineOptions, Event, GuestExit, Outcome, Phase, SandboxSession};
pub use table::{Handle, HandleTable};
