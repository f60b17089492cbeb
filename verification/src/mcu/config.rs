//! Configuration for the MCU simulation runtime.

use vstd::prelude::*;

verus! {

/// Configuration for the MCU simulation runtime.
#[derive(Debug, Clone, Copy, PartialEq, Eq, Structural)]
pub struct Config {
    /// Capacity of the external write channel buffer.
    pub write_buffer: usize,
    /// Capacity of the command channel buffer.
    pub cmd_buffer: usize,
    /// WASM fuel consumed between async yield points.
    pub yield_interval: u64,
}

impl Default for Config {
    fn default() -> (r: Self)
        ensures
            r.write_buffer == 128,
            r.cmd_buffer == 32,
            r.yield_interval == 10_000,
    {
        Config { write_buffer: 128, cmd_buffer: 32, yield_interval: 10_000 }
    }
}

} // verus!
