//! Capability state of a sandbox and its persisted, serialisable form.
//!
//! `capability` holds the capability set that a sandbox is built from,
//! `state` holds the flat record of it that is written to disk for
//! diagnostics and read back, and the conversions between the two.
pub mod capability;
pub mod error;
pub mod path;
pub mod resolve;
pub mod resource;
pub mod state;
