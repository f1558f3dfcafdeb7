//! Typed, round-trip-safe grammar for the human-oriented device and model
//! name strings that Apple's command-line tooling emits (for example
//! "iPad Pro (11-inch) (4th generation)"), together with a framework that
//! classifies the captured output of external command invocations into
//! typed outcomes.
//!
//! Parsing never fails: a string that no grammar recognizes is kept
//! verbatim in a fallback variant. For every recognized value, rendering
//! it reproduces a string that parses back to the same value.

pub mod codesign;
pub mod error;
pub mod cargo_bundle;
pub mod cli;
pub mod identifiers;
pub mod open;
pub mod security;
pub mod ios_deploy;
pub mod shared;
pub mod spctl;
pub mod xcrun;
pub mod text;
