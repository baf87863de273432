//! Messages: envelopes, encodings, compression, framing and message errors.
pub mod base58;
pub mod compression;
pub mod encoding;
pub mod deadline;
pub mod envelope;
pub mod errors;
pub mod codec;
pub mod service;
pub mod signing;
