//! Addressable LED strips on ADI ports: the strip's color buffer and its
//! bookkeeping.
//!
//! The strip's state is the buffer of packed colors kept here; pushing
//! the buffer out over the wire is a kernel device call that takes the
//! buffer and the validated port number.

use vstd::prelude::*;

verus! {

use crate::smart_device::PortError;

/// The longest LED strip the ADI protocol can drive.
pub const MAX_LED_LENGTH: usize = 64;

/// The highest ADI port on the controller; ports are numbered from 1.
pub const MAX_ADI_PORT: u8 = 8;

/// Whether an ADI port index names a port on the controller.
pub open spec fn valid_adi_port(port: u8) -> bool {
    1 <= port <= MAX_ADI_PORT
}

/// Errors that can occur when using an addressable LED strip.
#[derive(Clone, Copy, Debug, PartialEq, Eq, Structural)]
pub enum AddrLedError {
    /// Failed to access the LED buffer: an index or length is out of
    /// range for the strip.
    InvalidBufferAccess,
    /// The underlying ADI port is unusable.
    Adi(PortError),
}

/// An addressable LED strip on an ADI port, with its buffer of packed
/// colors (one `u32` per diode).
#[derive(Debug, PartialEq, Eq)]
pub struct AdiAddrLed {
    port: u8,
    buffer: Vec<u32>,
}

impl AdiAddrLed {
    /// The ADI port the strip is plugged into.
    pub closed spec fn spec_port(self) -> u8 {
        self.port
    }

    /// The colors the strip shows, in diode order.
    pub closed spec fn colors(self) -> Seq<u32> {
        self.buffer@
    }

    /// The ADI port the strip is plugged into.
    pub fn port(&self) -> (r: u8)
        ensures
            r == self.spec_port(),
    {
        self.port
    }

    /// The strip's color buffer, in diode order.
    pub fn buffer(&self) -> (r: &Vec<u32>)
        ensures
            r@ == self.colors(),
    {
        &self.buffer
    }

    /// Initialize an LED strip on an ADI port from a buffer of light
    /// colors. The port must name an ADI port and the buffer must fit
    /// the strip protocol's length cap.
    pub fn new(port: u8, buf: Vec<u32>) -> (r: Result<Self, AddrLedError>)
        ensures
            !valid_adi_port(port) ==> r == Err::<AdiAddrLed, AddrLedError>(
                AddrLedError::Adi(PortError::PortOutOfRange),
            ),
            valid_adi_port(port) && buf@.len() > MAX_LED_LENGTH ==> r == Err::<
                AdiAddrLed,
                AddrLedError,
            >(AddrLedError::InvalidBufferAccess),
            valid_adi_port(port) && buf@.len() <= MAX_LED_LENGTH ==> (r matches Ok(led)
                && led.spec_port() == port && led.colors() == buf@),
    {
        if !(1 <= port && port <= MAX_ADI_PORT) {
            Err(AddrLedError::Adi(PortError::PortOutOfRange))
        } else if buf.len() > MAX_LED_LENGTH {
            Err(AddrLedError::InvalidBufferAccess)
        } else {
            Ok(AdiAddrLed { port, buffer: buf })
        }
    }

    /// Set the entire led strip to one color.
    pub fn set_all(&mut self, color: u32) -> (r: Result<(), AddrLedError>)
        ensures
            r is Ok,
            final(self).spec_port() == old(self).spec_port(),
            final(self).colors().len() == old(self).colors().len(),
            forall|i: int| 0 <= i < final(self).colors().len() ==> final(self).colors()[i] == color,
    {
        let n = self.buffer.len();
        let mut i: usize = 0;
        while i < n
            invariant
                n == self.buffer.len(),
                i <= n,
                self.port == old(self).port,
                forall|j: int| 0 <= j < i ==> self.buffer@[j] == color,
            decreases n - i,
        {
            self.buffer[i] = color;
            i = i + 1;
        }
        Ok(())
    }

    /// Clear the entire led strip of color.
    pub fn clear_all(&mut self) -> (r: Result<(), AddrLedError>)
        ensures
            r is Ok,
            final(self).spec_port() == old(self).spec_port(),
            final(self).colors().len() == old(self).colors().len(),
            forall|i: int| 0 <= i < final(self).colors().len() ==> final(self).colors()[i] == 0,
    {
        self.set_all(0)
    }

    /// Set the entire led strip using the colors contained in a new
    /// buffer. The new buffer must fit the strip protocol's length cap.
    pub fn set_buffer(&mut self, buf: Vec<u32>) -> (r: Result<(), AddrLedError>)
        ensures
            final(self).spec_port() == old(self).spec_port(),
            buf@.len() > MAX_LED_LENGTH ==> r == Err::<(), AddrLedError>(
                AddrLedError::InvalidBufferAccess,
            ) && final(self).colors() == old(self).colors(),
            buf@.len() <= MAX_LED_LENGTH ==> r is Ok && final(self).colors() == buf@,
    {
        if buf.len() > MAX_LED_LENGTH {
            return Err(AddrLedError::InvalidBufferAccess);
        }
        self.buffer = buf;
        Ok(())
    }

    /// Set the color of a single LED on the strip; an index past the end
    /// of the strip is refused.
    pub fn set_pixel(&mut self, index: usize, color: u32) -> (r: Result<(), AddrLedError>)
        ensures
            final(self).spec_port() == old(self).spec_port(),
            index < old(self).colors().len() ==> r is Ok && final(self).colors() == old(
                self,
            ).colors().update(index as int, color),
            index >= old(self).colors().len() ==> r == Err::<(), AddrLedError>(
                AddrLedError::InvalidBufferAccess,
            ) && final(self).colors() == old(self).colors(),
    {
        if index < self.buffer.len() {
            self.buffer[index] = color;
            Ok(())
        } else {
            Err(AddrLedError::InvalidBufferAccess)
        }
    }

    /// Clear one LED on the strip; an index past the end of the strip is
    /// refused.
    pub fn clear_pixel(&mut self, index: usize) -> (r: Result<(), AddrLedError>)
        ensures
            final(self).spec_port() == old(self).spec_port(),
            index < old(self).colors().len() ==> r is Ok && final(self).colors() == old(
                self,
            ).colors().update(index as int, 0u32),
            index >= old(self).colors().len() ==> r == Err::<(), AddrLedError>(
                AddrLedError::InvalidBufferAccess,
            ) && final(self).colors() == old(self).colors(),
    {
        self.set_pixel(index, 0)
    }
}

} // verus!
