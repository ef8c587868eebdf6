//! The core of a log ingestor: log messages are read from a stream, handed
//! over a queue, and indexed in bulk in a search engine.
//!
//! The crate holds what the two ends of that pipeline decide and compute.
//! [`reader`] and [`indexer`] are their state machines: each step takes the
//! answer to the action before and gives the next action, and a program
//! around them performs the actions on the stream, the queue and the search
//! engine. [`redis_logs`] turns what a read gave into log messages, and
//! [`elastic_push`] turns log messages into the body of a bulk request.
//! [`log_msg`] and [`codec`] hold the log messages and the way they are read
//! from structured data, [`json`] the structured data itself.

pub mod codec;
pub mod config;
pub mod elastic_push;
pub mod indexer;
pub mod json;
pub mod log_msg;
pub mod number;
pub mod reader;
pub mod redis_logs;
pub mod stream;
pub mod text;
pub mod views;
