//! A conversational agent library for geospatial SQL.
//!
//! The library holds the verified core of the system: the conversation
//! data model (threads, messages, saved queries, data requests) over a
//! single wide-column table with composite keys, the streaming agent
//! loop that alternates LLM round-trips with tool dispatch, the SQL
//! validation and vector-tile query composition, and the store
//! semantics (exclusive-create and optimistic-lock puts).

pub mod chat_message;
pub mod chat_thread;
pub mod chatter;
pub mod chatter_context;
pub mod chatter_message;
pub mod cli;
pub mod codec;
pub mod data_request;
pub mod decimal;
pub mod error;
pub mod ext;
pub mod functions;
pub mod geom;
pub mod json;
pub mod keys;
pub mod pg_helpers;
pub mod rows_to_tsv;
pub mod sql_query;
pub mod store;
pub mod tile;
pub mod views;
