//! Pulsar: the verified core of a local system-observability engine.
pub mod text;
pub mod json;
pub mod paths;
pub mod log_sources;
pub mod platform;
pub mod install;
pub mod reference;
pub mod reference_catalog;
pub mod config;
pub mod collectors;
pub mod theme;
pub mod dashboard;
pub mod screen;
pub mod exporters;
pub mod export;
pub mod engine;
pub mod pipeline;
pub mod cli;
pub mod inventory;
pub mod service;
