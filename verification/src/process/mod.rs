//! Processes and the table that holds them.

pub mod capability;
pub mod context;
pub mod id;
pub mod ipc;
pub mod process;
pub mod state;
pub mod table;

pub use capability::{Capability, CapabilitySet, CapabilityType};
pub use context::ProcessContext;
pub use id::ProcessId;
pub use ipc::Message;
pub use process::Process;
pub use state::ProcessState;
pub use table::{ProcessError, ProcessTable};
