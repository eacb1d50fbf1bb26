//! Verified core of a firmware-stage kernel loader.
//!
//! The crate holds the decisions of the boot-to-kernel handoff: sizing
//! variable-length firmware queries, choosing the volume that carries the
//! kernel, reading and parsing the kernel image, assembling the platform
//! description and leaving firmware services. Every call into firmware is
//! left to the program that drives these state machines; the library sees
//! only plain values and answers with the next thing to do.

pub mod boot;
pub mod elf;
pub mod error;
pub mod locator;
pub mod platform;
pub mod query;
pub mod reader;
pub mod transition;
