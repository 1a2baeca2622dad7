//! Information about BLE devices.
use vstd::prelude::*;

verus! {

/// The BLE device type.
#[derive(Copy, Clone, Debug)]
pub struct DeviceType {
    /// Device name.
    pub name: &'static str,
    /// Model number.
    pub model: &'static str,
    /// Device manufacturer.
    pub manufacturer: &'static str,
}

} // verus!
