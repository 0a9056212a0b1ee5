//! Resolve whether a filesystem path lives on a live mounted filesystem or on
//! an ephemeral snapshot of one, and identify the backing device.
//!
//! The mount table is read once into a sequence of [`mount::MntTabEnt`]
//! records; each path is probed for a filesystem-level descriptor and a
//! vnode-level descriptor; [`resolve::resolve`] correlates the two against the
//! table and classifies the path as live or snapshot, or reports a definite
//! error.

pub mod laws;
pub mod mount;
pub mod oserr;
pub mod resolve;
pub mod seqfacts;
pub mod strutil;
