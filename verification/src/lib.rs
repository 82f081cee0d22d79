//! Decoder and request builder for a live-location sharing endpoint.
//!
//! The endpoint answers with a proprietary, positionally-addressed nested
//! JSON array.  This crate models that untyped document as a tagged union
//! ([`json::JsonValue`]), walks the fixed positional layout, and produces
//! validated [`Location`] records, failing closed with a descriptive
//! [`Error`] whenever the layout drifts from what is expected.

pub mod error;
pub mod fetch;
pub mod json;
pub mod location;

pub use error::Error;
pub use fetch::decode_envelope;
pub use json::JsonValue;
pub use location::Location;
pub use location::Person;
