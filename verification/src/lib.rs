//! Object lifecycle engine of a small self-hosted content server: identifier
//! allocation, upload ingestion, metadata records, retrieval and retention.

pub mod address;
pub mod config;
pub mod content_type;
pub mod failure;
pub mod messages;
pub mod notifier;
pub mod purge;
pub mod routes;
pub mod state;
pub mod templating;
pub mod text;
pub mod track;
