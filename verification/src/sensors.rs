//! Distance and positioning sensors: the typed port surface.
//!
//! Only the port bookkeeping lives here; reading a sensor goes through
//! the kernel's device calls, which take the validated port number this
//! surface hands out and return plain readings.

use vstd::prelude::*;

verus! {

use crate::smart_device::{valid_smart_port, PortError};

/// A distance sensor plugged into a smart port.
#[derive(Clone, Copy, Debug, PartialEq, Eq, Structural)]
pub struct DistanceSensor {
    /// The smart port the sensor is plugged into.
    pub port: u8,
}

impl DistanceSensor {
    /// Claim the distance sensor on `port`. The port index must name a
    /// port on the controller.
    pub fn new(port: u8) -> (r: Result<Self, PortError>)
        ensures
            valid_smart_port(port) ==> r == Ok::<DistanceSensor, PortError>(
                DistanceSensor { port },
            ),
            !valid_smart_port(port) ==> r == Err::<DistanceSensor, PortError>(
                PortError::PortOutOfRange,
            ),
    {
        if 1 <= port && port <= crate::smart_device::MAX_SMART_PORT {
            Ok(DistanceSensor { port })
        } else {
            Err(PortError::PortOutOfRange)
        }
    }
}

/// Errors that can occur when using a GPS sensor.
#[derive(Clone, Copy, Debug, PartialEq, Eq, Structural)]
pub enum GpsError {
    /// GPS sensor is still calibrating.
    StillCalibrating,
    /// The underlying port is unusable.
    Port(PortError),
}

/// A GPS sensor plugged into a smart port. Its readings — position,
/// attitude and acceleration — are floating point and come straight from
/// the kernel's device calls against this validated port.
#[derive(Clone, Copy, Debug, PartialEq, Eq, Structural)]
pub struct GpsSensor {
    /// The smart port the sensor is plugged into.
    pub port: u8,
}

impl GpsSensor {
    /// Claim the GPS sensor on `port`. The port index must name a port on
    /// the controller; calibration happens in the kernel once readings
    /// start.
    pub fn new(port: u8) -> (r: Result<Self, GpsError>)
        ensures
            valid_smart_port(port) ==> r == Ok::<GpsSensor, GpsError>(GpsSensor { port }),
            !valid_smart_port(port) ==> r == Err::<GpsSensor, GpsError>(
                GpsError::Port(PortError::PortOutOfRange),
            ),
    {
        if 1 <= port && port <= crate::smart_device::MAX_SMART_PORT {
            Ok(GpsSensor { port })
        } else {
            Err(GpsError::Port(PortError::PortOutOfRange))
        }
    }
}

} // verus!
