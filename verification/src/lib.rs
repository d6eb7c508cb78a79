//! Concurrent fetch-extract-persist orchestration library.
//!
//! The library models a bounded-concurrency scraping run: a task pool that
//! never exceeds its configured ceiling, an error taxonomy separating
//! transient from permanent failures, an exponential-backoff retry queue,
//! and a selector-chain content extractor with a minimum-quality gate.

pub mod config;
pub mod csv_reader;
pub mod error;
pub mod file_manager;
pub mod orchestrator;
pub mod retry;
pub mod strutil;
pub mod task_pool;
pub mod types;
pub mod web_scraper;
