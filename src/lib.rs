//! A minimal Linux process sandbox: the verified core of its bring-up
//! protocol, filesystem composition and supervisor lifecycle.
//!
//! The library decides; it does not make system calls. The supervisor's
//! [`container::Container`] hands out one action at a time for the caller
//! to perform and is told the outcome; the child follows the ordered plan
//! of [`entry::entry_plan`]; mount steps, the identity map and the cgroup
//! policy describe the mounts and file writes they need; and the status
//! channel between child and supervisor is framed by [`report`].
pub mod config;
pub mod container;
pub mod entry;
pub mod filesystem;
pub mod idmap;
pub mod report;
pub mod resource;
