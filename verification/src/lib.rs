//! A verified core for a command-line client of a public image-listing HTTP
//! service: configuration validation, URL and filename construction, number
//! and size formatting, a paginated author search, and the accounting model
//! of a bounded-concurrency batch downloader.

pub mod batch;
pub mod config;
pub mod error;
pub mod numfmt;
pub mod search;
pub mod textfmt;
pub mod url;
