//! MMIO operations issued by firmware: a read at an address and width, or a
//! write of a width-tagged value.

use vstd::prelude::*;

use crate::volatile_access::{Addr, Value, Width};

verus! {

/// An MMIO read operation at a given address and width.
pub struct Read(Addr, Width);

impl Read {
    /// The target address.
    pub closed spec fn spec_addr(&self) -> Addr {
        self.0
    }

    /// The access width.
    pub closed spec fn spec_width(&self) -> Width {
        self.1
    }

    /// Creates a new read operation.
    pub fn new(addr: Addr, width: Width) -> (r: Self)
        ensures
            r.spec_addr() == addr,
            r.spec_width() == width,
    {
        Read(addr, width)
    }

    /// Target address.
    pub fn addr(&self) -> (r: Addr)
        ensures
            r == self.spec_addr(),
    {
        self.0
    }

    /// Access width.
    pub fn width(&self) -> (r: Width)
        ensures
            r == self.spec_width(),
    {
        self.1
    }
}

/// An MMIO write operation at a given address with a typed value.
pub struct Write(Addr, Value);

impl Write {
    /// The target address.
    pub closed spec fn spec_addr(&self) -> Addr {
        self.0
    }

    /// The value to write.
    pub closed spec fn spec_value(&self) -> Value {
        self.1
    }

    /// Creates a new write operation.
    pub fn new(addr: Addr, value: Value) -> (r: Self)
        ensures
            r.spec_addr() == addr,
            r.spec_value() == value,
    {
        Write(addr, value)
    }

    /// Target address.
    pub fn addr(&self) -> (r: Addr)
        ensures
            r == self.spec_addr(),
    {
        self.0
    }

    /// Access width: that of the value written.
    pub fn width(&self) -> (r: Width)
        ensures
            r == self.spec_value().tag(),
    {
        self.1.width()
    }

    /// The value to write.
    pub fn value(&self) -> (r: Value)
        ensures
            r == self.spec_value(),
    {
        self.1
    }
}

} // verus!
