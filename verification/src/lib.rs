//! Assembly of a mountable disk-image artifact from a prepared application
//! directory: size estimation, raw image allocation, filesystem formatting,
//! privileged mount/populate/unmount, volume-attribute tagging, and atomic
//! finalization.
//!
//! The privileged, failure-prone external operations (block allocation,
//! formatting, loopback mount, recursive copy, unmount, rename) are performed
//! by the embedding program; this crate decides what to do next. The
//! [`pipeline::Pipeline`] state machine sequences the steps and guarantees
//! that a successful loopback attach is followed by exactly one detach request
//! on every exit path, and that the final rename is only requested after a
//! fully successful run.

pub mod attr;
pub mod estimate;
pub mod image;
pub mod manifest;
pub mod parse;
pub mod pipeline;
