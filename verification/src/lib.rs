//! A pass/fail gate for a manufacturing test station.
//!
//! Given a scanned unit identifier and an optional panel size, the library
//! decides whether the unit (or the panel of boards it belongs to) may go
//! through another test cycle, based on how many times it has been tested
//! and how many of those attempts failed. The decision logic is verified;
//! the surrounding process (argument handling, configuration file, SQL
//! transport) lives outside the library and hands it plain values.

pub mod codec;
pub mod config;
pub mod decimal;
pub mod decision;
pub mod error;
pub mod exemption;
pub mod report;
pub mod store;
