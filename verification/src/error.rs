//! Error taxonomy: device register faults, bus faults, MCU faults, runtime faults.

use std::sync::Arc;
use vstd::prelude::*;

verus! {

#[verifier::external_type_specification]
#[verifier::external_body]
pub struct ExWasmtimeError(wasmtime::Error);

/// Optional shared reference to a runtime error, used to propagate halt reasons.
pub type ErrorHandle = Option<Arc<RuntimeError>>;

/// Constructs a `Custom` variant from a message.
pub trait Custom: Sized {
    /// Whether this error is the `Custom` variant carrying `msg`.
    spec fn is_custom(&self, msg: Seq<char>) -> bool;

    /// Creates a `Custom` error variant from the given message.
    fn custom(msg: String) -> (r: Self)
        ensures
            r.is_custom(msg@),
    ;
}

/// Errors from device register reads.
#[derive(Debug)]
pub enum ReadError {
    /// The offset lies outside the device's register range.
    InvalidOffset { offset: u32, range_start: u32, range_end: u32 },
    /// The register at this offset cannot be read.
    WriteOnly { offset: u32 },
    /// The access is not aligned to its width.
    UnalignedAccess { offset: u32, width: u8 },
    /// Any other read fault.
    Custom(String),
}

/// Errors from device register writes.
#[derive(Debug)]
pub enum WriteError {
    /// The offset lies outside the device's register range.
    InvalidOffset { offset: u32, range_start: u32, range_end: u32 },
    /// The register at this offset cannot be written.
    ReadOnly { offset: u32 },
    /// The access is not aligned to its width.
    UnalignedAccess { offset: u32, width: u8 },
    /// The value does not fit the declared width.
    ValueOverflow { value: u32, width: u8, max: u32 },
    /// Any other write fault.
    Custom(String),
}

/// Errors originating from a peripheral device.
#[derive(Debug)]
pub enum DeviceError {
    /// A register read fault.
    Read(ReadError),
    /// A register write fault.
    Write(WriteError),
    /// Any other device fault.
    Custom(String),
}

/// Errors from bus-level address resolution and device dispatch.
#[derive(Debug)]
pub enum BusError {
    /// No device is mapped at the address.
    UnmappedAddress { addr: u32 },
    /// The device at the address faulted.
    Device(DeviceError),
    /// Any other bus fault.
    Custom(String),
}

/// Top-level MCU errors wrapping bus faults and width mismatches.
#[derive(Debug)]
pub enum McuError {
    /// The bus faulted.
    Bus(BusError),
    /// A value of one width was asked for as another.
    WidthMismatch { requested: u8, actual: u8 },
    /// Any other MCU fault.
    Custom(String),
}

/// Errors from the WASM runtime, firmware execution, and executor lifecycle.
#[derive(Debug)]
pub enum RuntimeError {
    /// The WASM module could not be compiled or instantiated.
    CompilationError(wasmtime::Error),
    /// A host function could not be linked.
    LinkError(String),
    /// The module does not export a `_start` entry point.
    MissingEntryPoint,
    /// The module does not export the handler `__isr_{irq}`.
    MissingIsr { irq: u8 },
    /// The firmware trapped.
    Trap(wasmtime::Error),
    /// A firmware import was called with an invalid argument.
    InvalidArgument(String),
    /// A command is not valid in the MCU's current state.
    InvalidState(String),
    /// The module does not export a required item.
    MissingExport(String),
    /// The command channel to the executor is closed.
    ChannelClosed,
    /// A lock on shared state was poisoned.
    LockPoisoned(String),
    /// The MCU faulted.
    Mcu(McuError),
    /// The MCU is halted on the given error.
    Halted(Arc<RuntimeError>),
    /// Any other runtime fault.
    Custom(String),
}

impl Custom for RuntimeError {
    open spec fn is_custom(&self, msg: Seq<char>) -> bool {
        self matches RuntimeError::Custom(m) && m@ == msg
    }

    fn custom(msg: String) -> (r: Self) {
        RuntimeError::Custom(msg)
    }
}

impl From<McuError> for RuntimeError {
    fn from(err: McuError) -> (r: Self) {
        RuntimeError::Mcu(err)
    }
}

impl vstd::std_specs::convert::FromSpecImpl<McuError> for RuntimeError {
    open spec fn obeys_from_spec() -> bool {
        true
    }

    open spec fn from_spec(v: McuError) -> Self {
        RuntimeError::Mcu(v)
    }
}

impl Custom for ReadError {
    open spec fn is_custom(&self, msg: Seq<char>) -> bool {
        self matches ReadError::Custom(m) && m@ == msg
    }

    fn custom(msg: String) -> (r: Self) {
        ReadError::Custom(msg)
    }
}

impl Custom for WriteError {
    open spec fn is_custom(&self, msg: Seq<char>) -> bool {
        self matches WriteError::Custom(m) && m@ == msg
    }

    fn custom(msg: String) -> (r: Self) {
        WriteError::Custom(msg)
    }
}

impl Custom for DeviceError {
    open spec fn is_custom(&self, msg: Seq<char>) -> bool {
        self matches DeviceError::Custom(m) && m@ == msg
    }

    fn custom(msg: String) -> (r: Self) {
        DeviceError::Custom(msg)
    }
}

impl Custom for BusError {
    open spec fn is_custom(&self, msg: Seq<char>) -> bool {
        self matches BusError::Custom(m) && m@ == msg
    }

    fn custom(msg: String) -> (r: Self) {
        BusError::Custom(msg)
    }
}

impl Custom for McuError {
    open spec fn is_custom(&self, msg: Seq<char>) -> bool {
        self matches McuError::Custom(m) && m@ == msg
    }

    fn custom(msg: String) -> (r: Self) {
        McuError::Custom(msg)
    }
}

impl From<ReadError> for DeviceError {
    fn from(err: ReadError) -> (r: Self) {
        DeviceError::Read(err)
    }
}

impl vstd::std_specs::convert::FromSpecImpl<ReadError> for DeviceError {
    open spec fn obeys_from_spec() -> bool {
        true
    }

    open spec fn from_spec(v: ReadError) -> Self {
        DeviceError::Read(v)
    }
}

impl From<WriteError> for DeviceError {
    fn from(err: WriteError) -> (r: Self) {
        DeviceError::Write(err)
    }
}

impl vstd::std_specs::convert::FromSpecImpl<WriteError> for DeviceError {
    open spec fn obeys_from_spec() -> bool {
        true
    }

    open spec fn from_spec(v: WriteError) -> Self {
        DeviceError::Write(v)
    }
}

impl From<DeviceError> for BusError {
    fn from(err: DeviceError) -> (r: Self) {
        BusError::Device(err)
    }
}

impl vstd::std_specs::convert::FromSpecImpl<DeviceError> for BusError {
    open spec fn obeys_from_spec() -> bool {
        true
    }

    open spec fn from_spec(v: DeviceError) -> Self {
        BusError::Device(v)
    }
}

impl From<BusError> for McuError {
    fn from(err: BusError) -> (r: Self) {
        McuError::Bus(err)
    }
}

impl vstd::std_specs::convert::FromSpecImpl<BusError> for McuError {
    open spec fn obeys_from_spec() -> bool {
        true
    }

    open spec fn from_spec(v: BusError) -> Self {
        McuError::Bus(v)
    }
}

} // verus!
