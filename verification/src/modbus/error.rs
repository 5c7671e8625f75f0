//! Failures of the Modbus master and slave paths.

use vstd::prelude::*;

use rmodbus::ErrorKind;

verus! {

/// The I/O failure classes the runtime distinguishes: timeouts and
/// would-block conditions are tolerated during an action sweep, anything
/// else aborts it.
#[derive(Clone, Copy, Debug, PartialEq, Eq, Structural)]
pub enum IoErrorKind {
    TimedOut,
    WouldBlock,
    Other,
}

/// A Modbus exchange failure: either the transport failed (`Io`) or the
/// codec rejected a frame (`Rmodbus`).
#[derive(Clone, Copy, Debug)]
pub enum ModbusErr {
    Io(IoErrorKind),
    Rmodbus(ErrorKind),
}

/// The timeout class of errors that an action sweep absorbs silently:
/// the remote peer did not answer in time.
pub open spec fn spec_timeout_class(e: ModbusErr) -> bool {
    e == ModbusErr::Io(IoErrorKind::TimedOut) || e == ModbusErr::Io(IoErrorKind::WouldBlock)
}

impl ModbusErr {
    /// True exactly for the transport errors that mean "the peer is
    /// silent this tick": those are skipped, all others surface.
    pub fn is_timeout_class(&self) -> (r: bool)
        ensures
            r == spec_timeout_class(*self),
    {
        match self {
            ModbusErr::Io(IoErrorKind::TimedOut) => true,
            ModbusErr::Io(IoErrorKind::WouldBlock) => true,
            _ => false,
        }
    }
}

} // verus!
