//! The identifier grammar engine: typed, round-trip-safe representations
//! of the device and model name strings that Apple tooling emits.

pub mod device_name;
pub mod generation;
pub mod m_gen;
pub mod m_status;
pub mod model_name;
pub mod num_generation;
pub mod screen_size;

use vstd::prelude::*;

verus! {

/// A simulator runtime identifier such as
/// "com.apple.CoreSimulator.SimRuntime.iOS-16-4", kept verbatim.
#[derive(Debug, Clone)]
pub struct RuntimeIdentifier(pub String);

} // verus!
