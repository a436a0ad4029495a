//! Attachment archiving for an e-mail ingestion service: post-processing
//! chains, content-addressed keys, store deduplication, notifications and
//! the handler's counters.
pub mod api;
pub mod attachment;
pub mod cli;
pub mod config;
pub mod error;
pub mod handler;
pub mod http;
pub mod notify;
pub mod postprocess;
pub mod store;
pub mod text;

pub use config::Config;
pub use error::Error;
pub use handler::MailHandler;
