//! Ingestion library for the CS:GO game state integration push protocol.
//!
//! A game client periodically POSTs a JSON snapshot of its internal state
//! to a local listener.  This crate is the verified core of such a
//! listener:
//!
//! - the strict typed schema for one snapshot ([`Update`] and its nested
//!   sections), with decoding that rejects any field, value shape or
//!   enumeration spelling outside the schema, and encoding that round-trips
//!   every decoded value;
//! - the decode pipeline one request body runs through
//!   ([`process_update_body`]), and the bounded FIFO queue between the
//!   endpoint and the dispatcher ([`UpdateQueue`]);
//! - the subscription model and configuration artifact
//!   ([`GSIConfigBuilder`], [`GSIConfig`], [`ConfigFile`]) that tell the
//!   client where, how often and what to push.
//!
//! Raw JSON parsing is delegated to `serde_json`; everything after the
//! parse works on a plain [`JsonValue`] tree and is verified.  The HTTP
//! transport, the dispatch thread and the filesystem installation of the
//! artifact are unverified glue outside this crate.

mod config;
mod error;
mod json;
mod server;
mod text;
pub mod update;

pub use config::{Subscription, GSIConfigBuilder, GSIConfig, ConfigFile};
pub use error::Error;
pub use json::JsonValue;
pub use server::{GSIServer, IngestError, UpdateQueue, QUEUE_CAPACITY, process_update_body};
pub use update::Update;
