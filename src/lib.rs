//! Relay from code-review webhooks to a CI trigger endpoint.
//!
//! The library holds the decisions: reading review events out of a JSON
//! body, the trigger heuristic, building the trigger payload and choosing the
//! HTTP status for each request. Network I/O is left to the caller.
pub mod json;
pub mod text;
pub mod event;
pub mod gitea;
pub mod trigger;
pub mod payload;
pub mod relay;
pub mod file_server;
