//! Query translation and response normalization for a search proxy that sits
//! in front of a full-text search engine.
//!
//! The crate holds the pure core of the proxy: how a free-text query becomes a
//! query-DSL document, how the engine's reply becomes the stable result shape,
//! how configuration values are resolved, and what the log mirror decides to
//! write. Everything here works on plain values; sockets, clocks and the
//! process environment belong to the program around it.

pub mod config;
pub mod json;
pub mod logger;
pub mod models;
pub mod query;
pub mod response;
pub mod text;
pub mod timestamp;


pub use config::Config;
pub use json::{Json, JsonValue};
pub use logger::{ElasticsearchLogger, FieldVisitor, LogEntry, LogWrite};
pub use models::{Post, SearchRequest, SearchResponse};
pub use query::{translate, QueryDocument};
pub use response::{answer, finish_search, normalize, reply_of, respond, SearchError};
