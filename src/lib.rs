//! Typed, selective, failure-aware access to a process's own mailbox.
//!
//! The host owns the queue, the delivery of messages and the process-wide
//! link-mode flag. This library decides what to ask the host for, how to
//! read the host's answer, and what a receive call returns.
pub mod mailbox;
pub mod tag;
