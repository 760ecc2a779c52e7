//! Abstract two-wire bus transport.
//!
//! The drivers in this crate issue register-select-plus-payload writes and
//! combined write-then-read transactions through this trait, together with a
//! blocking delay primitive from the same clock source. Any transport that
//! offers these operations is sufficient; the binary adapts the real Linux
//! bus device to it, and tests substitute a scripted mock.

use vstd::prelude::*;

verus! {

/// Transport-level failure of one bus transaction, mirroring the failure
/// kinds a two-wire bus adapter can report. A failure aborts the surrounding
/// transaction cycle and is propagated verbatim to the caller; the drivers
/// never retry internally.
#[derive(Clone, Copy, PartialEq, Eq, Structural, Debug)]
pub enum BusError {
    /// A generic error on the bus (misplaced start/stop, line stuck, ...).
    Bus,
    /// Arbitration was lost to another master.
    ArbitrationLoss,
    /// The device did not acknowledge an address or data byte.
    NoAcknowledge,
    /// A receive overrun inside the adapter.
    Overrun,
    /// Any other adapter-specific failure.
    Other,
}

/// A blocking two-wire bus transport plus the monotonic delay primitive.
///
/// Each method performs (at most) one bus transaction, which either completes
/// or fails with a [`BusError`]; there is no partial-transaction recovery.
pub trait I2cBus {
    /// Write all of `bytes` to the device at `addr` in one transaction.
    fn bus_write(&mut self, addr: u8, bytes: &Vec<u8>) -> Result<(), BusError>;

    /// Write the register byte `reg` to the device at `addr`, then read one
    /// byte back, in one combined transaction.
    fn bus_write_read1(&mut self, addr: u8, reg: u8) -> Result<u8, BusError>;

    /// Write the register byte `reg` to the device at `addr`, then read two
    /// bytes back, in one combined transaction. The pair is (first byte read,
    /// second byte read), i.e. big-endian order for a 16-bit register.
    fn bus_write_read2(&mut self, addr: u8, reg: u8) -> Result<(u8, u8), BusError>;

    /// Block the calling thread for at least `ms` milliseconds.
    fn sleep_ms(&mut self, ms: u64);
}

} // verus!
