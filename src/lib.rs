//! Configuration of a containerised build environment: the configuration
//! record, validation of the maintainer identity, and the files that a record
//! projects onto a target tree.

pub mod apply;
pub mod config;
pub mod identity;
pub mod wizard;
