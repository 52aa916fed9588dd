//! A closed error contract for an API service: failures raised by outside
//! subsystems are normalised into one canonical [`Error`] record, which is
//! then rendered into the client-facing wire shape.

pub mod code;
pub mod error;
pub mod detail;
mod outside;
pub mod translate;
pub mod wire;
