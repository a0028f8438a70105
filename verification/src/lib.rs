//! A verified core for a cross-platform GPU-compute abstraction.
//!
//! The library models devices, queues, programs, buffers, images and
//! synchronization tokens as backend-agnostic handles bound to one backend
//! instance, and specifies the queue submission protocol: how a compute
//! dispatch is encoded, which argument bindings it carries, how a wait-list
//! gates completion, and when each operation succeeds or fails.

pub mod buffer;
pub mod device;
pub mod encoding;
pub mod error;
pub mod image;
pub mod instance;
pub mod kernel;
pub mod metal;
pub mod profile_event;
pub mod program;
pub mod queue;
pub mod sync_event;
