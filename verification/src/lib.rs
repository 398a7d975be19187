//! A boundary between a dynamically typed host and a proof-verification
//! engine with a Poseidon hash primitive.
//!
//! The host hands over loosely typed values; the engine wants text and may
//! abort. This crate decodes the host's values, hands the engine exactly what
//! was decoded, and turns whatever the guarded invocation reports into one of
//! three failures that the host can tell apart:
//!
//! - [`marshal`] decodes host values into text and encodes text for the host;
//! - [`isolation`] holds what crosses to the engine, what a guarded
//!   invocation reports, and the flag of the one-time abort hook;
//! - [`boundary`] holds the two calls that the host makes, [`verify_wav`] and
//!   [`hash_wav`];
//! - [`laws`] states what holds of those calls whatever engine stands behind
//!   them.

pub mod boundary;
pub mod error;
pub mod isolation;
pub mod laws;
pub mod marshal;
pub mod value;

pub use crate::boundary::{hash_wav, verify_wav};
