//! User-space driver for the kernel's submission/completion ring protocol.
//!
//! The rings, their indices and the decisions around the kernel calls are
//! modelled and verified here; the calls themselves are made by the caller.
pub mod layout;
pub mod params;
pub mod ring;
pub mod squeue;
pub mod cqueue;
pub mod error;
pub mod instance;
pub mod submit;

pub use instance::IoUring;
pub use squeue::SubmissionQueue;
pub use cqueue::CompletionQueue;
pub use submit::Submitter;
