//! Polls a weather service for a set of places at a bounded rate and turns
//! each reading into labelled gauge values.
pub mod text;
pub mod models;
pub mod options;
pub mod metric_metadata;
pub mod client;
pub mod projector;
pub mod schedule;
pub mod config;
