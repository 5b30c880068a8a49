//! Versioned binary codec for Unreal Engine asset-registry records.
//!
//! The on-disk layout of a record is decided field by field by comparing
//! version numbers against per-field thresholds; the same gating logic
//! drives both decoding and encoding, so that a record round-trips to an
//! identical byte stream across every supported engine release.

pub mod archive;
pub mod error;
pub mod names;
pub mod record;
pub mod version;
pub mod wire;
