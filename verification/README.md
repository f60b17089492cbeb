# firmament

The verified core of Firmament, a virtual microcontroller on which firmware
compiled to WebAssembly runs against memory-mapped registers, interrupts and
cycle budgets.

- `src/` is the library, verified with Verus:
  - `volatile_access`: width-tagged register values (`Width`, `Value`), the
    conversions between them and native integers, and addresses (`Addr`);
  - `error`: the device, bus, MCU and runtime error taxonomy;
  - `traits`: the register interfaces that simulated hardware implements;
  - `mcu::budget` and `mcu::state`: cycle and compute budgets, fuel metering
    and the wait-for-interrupt step;
  - `mcu::executor`: the lifecycle state machine (Off, Running, Halted) that
    decides how each command is answered, what follows, and when the handle
    reports an error;
  - `mcu::handle` and `mcu::imports`: typed reads and the
    argument checks of the host functions that firmware imports;
  - `mcu::firmware`: compilation of firmware images with Wasmtime;
  - `logging`: log record contexts and routing to registered handlers;
  - `text`: decimal and `0x`-prefixed hexadecimal rendering of integers;
  - `mcu::runtime`: the names of the interrupt handler exports.
- `app/` is the host runtime around it: the async executor task, the
  Wasmtime host imports, the `Handle`, the tracing layer, error diagnostics,
  the system/MCU builders, and the guest-side firmware library (`fm`).
- `tests/` exercises the library on concrete values.
