//! Verified core of a firmware-flashing pipeline for LoRa mesh radios.
//!
//! The library resolves a board and a firmware release against fetched
//! catalogs, parses version identifiers, computes the bundle entry names for
//! a board's architecture, extracts binaries from a downloaded bundle, and
//! drives the device-write state machine, chunk by chunk, with progress
//! events. All I/O (network, filesystem, the serial line itself) lives in
//! the surrounding application; the library computes and decides.

pub mod archive;
pub mod boards;
pub mod catalog;
pub mod errors;
pub mod flash;
pub mod menu;
pub mod naming;
pub mod pipeline;
pub mod ports;
pub mod strings;
pub mod version;
