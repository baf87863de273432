//! Building blocks for secure, message based services: typed identifiers, error and
//! event descriptions, log configuration, message envelopes, encodings, compression,
//! stream framing, and task/command progress tracking.

pub mod text;

pub mod errors;
pub mod failures;
pub mod event;
pub mod events;
pub mod id;
pub mod ulid;
pub mod uid;
pub mod message;
pub mod registry;
pub mod command;
pub mod devops;
pub mod logging;
pub mod monix;
pub mod actor;
pub mod testing;
