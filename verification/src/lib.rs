//! Instruction set and host-interaction contract of an Ethereum-compatible
//! bytecode virtual machine.
//!
//! The crate defines the one-byte opcode table with its classification
//! helpers, the exit-reason taxonomy every unit of execution reports, the
//! `Capture` suspend/resume wrapper, the value types describing a call
//! frame's environment, and the `Handler` trait through which the dispatch
//! loop reads and mutates world state and delegates nested calls and
//! creations.

pub mod capture;
pub mod context;
pub mod error;
pub mod handler;
pub mod machine;
pub mod opcode;
pub mod primitives;

pub use capture::Capture;
pub use context::Context;
pub use context::CreateScheme;
pub use error::ExitError;
pub use error::ExitFatal;
pub use error::ExitReason;
pub use error::ExitRevert;
pub use error::ExitSucceed;
pub use handler::Handler;
pub use handler::Transfer;
pub use machine::Machine;
pub use machine::Stack;
pub use opcode::Opcode;
