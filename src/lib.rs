//! Event ingestion and publishing pipeline for blockchain execution logs.

pub mod config;
pub mod driver;
pub mod dup;
pub mod enrich;
pub mod event;
pub mod extract;
pub mod handler;
pub mod json;
pub mod provision;
pub mod stats;
pub mod text;
pub mod token;
