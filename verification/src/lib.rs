//! A status-line generator library: layered configuration discovery,
//! per-metric isolated collection, deterministic network-link
//! classification, and deterministic line rendering.
//!
//! The pieces that touch the machine (file reads, the clock, interface
//! enumeration) are handed in as plain values or called through small
//! trusted wrappers; everything that decides or formats is verified.

pub mod config;
pub mod network;
pub mod numtext;
pub mod render;
pub mod snapshot;
pub mod tomltext;
