//! Verified core of the Firmament MCU simulator.
//!
//! Firmware compiled to WebAssembly runs against a virtual microcontroller
//! that exposes memory-mapped registers, interrupts and cycle budgets. This
//! crate holds the parts of the simulator that decide things: width-tagged
//! register values, the error taxonomy, cycle and compute budgets, the MCU
//! lifecycle state machine, argument checks for the firmware imports, and the
//! routing of log records to their handlers.

pub mod error;
pub mod logging;
pub mod mcu;
pub mod text;
pub mod traits;
pub mod volatile_access;
