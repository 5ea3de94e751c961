//! Smart ports and the trait every smart-port device offers.

use vstd::prelude::*;

verus! {

/// The highest smart port on the controller; ports are numbered from 1.
pub const MAX_SMART_PORT: u8 = 21;

/// One of the controller's numbered smart ports.
#[derive(Clone, Copy, Debug, PartialEq, Eq, Structural)]
pub struct SmartPort(pub u8);

/// What every device plugged into a smart port can say of itself.
pub trait SmartDevice {
    /// Gets the current smart port index that this device is plugged into.
    fn port(&self) -> u8;

    /// Gets the device's connection status in the port.
    fn installed(&self) -> bool;
}

/// Errors that can occur when addressing a port.
#[derive(Clone, Copy, Debug, PartialEq, Eq, Structural)]
pub enum PortError {
    /// The port index names no port on the controller.
    PortOutOfRange,
    /// The port cannot be configured for the requested device.
    PortCannotBeConfigured,
}

/// Whether a smart port index names a port on the controller.
pub open spec fn valid_smart_port(port: u8) -> bool {
    1 <= port <= MAX_SMART_PORT
}

} // verus!
