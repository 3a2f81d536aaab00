//! A verified alert-ingestion and delivery pipeline: an HTTP request/response
//! framer tolerant of partial reads, a fingerprint-keyed dedup store with a
//! JSON on-disk form and legacy schema migration, an ordered retrying
//! notification queue, and the re-alert scans that feed it.

pub mod bytes;
pub mod clock;
pub mod codec;
pub mod config;
pub mod consts;
pub mod errors;
pub mod fingerprint;
pub mod grafana;
pub mod http;
pub mod notification;
pub mod schedule;
pub mod server;
pub mod text;
