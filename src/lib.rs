//! Composes a crash archive from a core image: the step protocol, the
//! supervisor's verdict, and the documents that travel with the core.

pub mod json;
pub mod protocol;
pub mod supervisor;
pub mod config;
pub mod events;
