//! Interfaces that simulated hardware implements.
//!
//! These traits are implemented by the peripherals, buses and MCUs that users
//! of the simulator write; nothing is promised here of what an implementation
//! returns.

use vstd::prelude::*;

use crate::volatile_access::{Addr, Value, Width};

verus! {

/// The kind of MCU reset to perform.
#[derive(Debug, Clone, Copy, PartialEq, Eq, Structural)]
pub enum ResetKind {
    /// Full power-cycle reset; all state is cleared.
    Cold,
    /// Soft reset; preserves peripheral register state.
    Warm,
}

/// Readable memory-mapped region.
pub trait Read {
    /// The fault a read can report.
    type Error;

    /// Reads a value of the given width from the address.
    fn read(&mut self, addr: Addr, width: Width) -> Result<Value, Self::Error>;

    /// Returns the cycle cost of a read at this address and width. Defaults to 1.
    fn rcost(&self, addr: Addr, width: Width) -> (r: u64)
        default_ensures
            r == 1,
    {
        1
    }
}

/// Writable memory-mapped region.
pub trait Write {
    /// The fault a write can report.
    type Error;

    /// Writes a value to the address.
    fn write(&mut self, addr: Addr, val: Value) -> Result<(), Self::Error>;

    /// Returns the cycle cost of a write at this address and width. Defaults to 1.
    fn wcost(&self, addr: Addr, width: Width) -> (r: u64)
        default_ensures
            r == 1,
    {
        1
    }
}

/// A read/write region that occupies a specific address range.
pub trait Addressable: Read + Write {
    /// Returns the address range this region occupies.
    fn address_range(&self) -> core::ops::Range<u32>;
}

/// Can be advanced forward by a number of clock cycles.
pub trait Advanceable {
    /// Advances internal state by the given number of cycles.
    fn advance(&mut self, cycles: u64);
}

/// Supports cold and warm resets.
pub trait Resettable {
    /// Resets internal state according to the given [`ResetKind`].
    fn reset(&mut self, kind: ResetKind);
}

} // verus!
