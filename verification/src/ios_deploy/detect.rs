//! Device detection: the configuration handed to `ios-deploy --detect`
//! and the typed device records built from its output.

use vstd::prelude::*;
use crate::identifiers::model_name::ModelName;

verus! {

/// Options for a detection run.
#[derive(Debug, Clone)]
pub struct DetectDevicesConfig {
    /// Seconds to wait for devices.
    pub timeout: u8,
    /// Whether to also look for devices over WiFi.
    pub wifi: bool,
}

impl Default for DetectDevicesConfig {
    /// One second, WiFi included.
    fn default() -> (r: DetectDevicesConfig)
        ensures
            r.timeout == 1,
            r.wifi,
    {
        DetectDevicesConfig { timeout: 1, wifi: true }
    }
}

/// How a detected device is connected.
#[derive(Debug, Clone, Copy, PartialEq, Eq, Structural)]
pub enum DeviceInterface {
    Usb,
    Wifi,
}

/// A real device reported by a detection run. Collaborators parse the
/// tool's JSON events and hand these fields over as plain values; the
/// model name string is routed through the model name grammar.
#[derive(Debug, Clone)]
pub struct Device {
    pub device_identifier: String,
    pub device_name: String,
    pub model_name: ModelName,
    pub interface: DeviceInterface,
}

impl Device {
    pub fn new(
        device_identifier: String,
        device_name: String,
        model_name: ModelName,
        interface: DeviceInterface,
    ) -> (r: Device)
        ensures
            r.device_identifier@ == device_identifier@,
            r.device_name@ == device_name@,
            r.model_name == model_name,
            r.interface == interface,
    {
        Device { device_identifier, device_name, model_name, interface }
    }
}

} // verus!
