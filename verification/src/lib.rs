//! Children-group subsystem of a supervised actor runtime.
//!
//! A *group* is a homogeneous pool of `redundancy` elements that all run the
//! same user work function under a common parent supervisor.  This crate holds
//! the verified kernel of that subsystem: the message envelope, the control
//! message variant, the per-element mailbox, the lifecycle state machines of
//! the group and of each element, and the reference handles used to address
//! them.  The asynchronous plumbing that drives the state machines (executor,
//! channels' receive ends, the user future) lives outside and feeds events in.

pub mod envelope;
pub mod message;
pub mod context_state;
pub mod child;
pub mod children;
pub mod refs;
