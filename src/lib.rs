//! Host-side lifecycle management for crosvm virtual machines: configuration
//! checks, the rendering of the crosvm invocation, the payload state machine
//! and the bookkeeping done when the VM process exits; and a byte vector for
//! secrets that is wiped on drop.

pub mod command;
pub mod config;
pub mod lifecycle;
pub mod payload;
pub mod zvec;
