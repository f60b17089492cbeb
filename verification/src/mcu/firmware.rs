//! Firmware images and their lifecycle phases.

use vstd::prelude::*;

use crate::error::RuntimeError;

verus! {

#[verifier::external_type_specification]
#[verifier::external_body]
pub struct ExWasmtimeEngine(wasmtime::Engine);

#[verifier::external_type_specification]
#[verifier::external_body]
pub struct ExWasmtimeModule(wasmtime::Module);

/// `Clone` of a Wasmtime engine: another handle to the same engine.
/// Nothing is claimed of the result.
pub assume_specification[ <wasmtime::Engine as Clone>::clone ](engine: &wasmtime::Engine) -> wasmtime::Engine;

/// `Clone` of a compiled Wasmtime module: another handle to the same module.
/// Nothing is claimed of the result.
pub assume_specification[ <wasmtime::Module as Clone>::clone ](module: &wasmtime::Module) -> wasmtime::Module;

/// Whether an engine's configuration meters fuel (`wasmtime::Config::consume_fuel`).
pub uninterp spec fn engine_consumes_fuel(engine: wasmtime::Engine) -> bool;

/// The bytes a module was compiled from by `wasmtime::Module::new`.
pub uninterp spec fn module_source(module: wasmtime::Module) -> Seq<u8>;

/// `wasmtime::Engine::new` on the default configuration, with fuel metering
/// set by `consume_fuel` (`wasmtime::Config::consume_fuel`).
/// Claimed: an engine it returns meters fuel exactly when asked to. Whether it
/// succeeds depends on the host machine and is not claimed.
#[verifier::external_body]
fn engine_new(consume_fuel: bool) -> (r: Result<wasmtime::Engine, wasmtime::Error>)
    ensures
        r matches Ok(engine) ==> engine_consumes_fuel(engine) == consume_fuel,
{
    let mut config = wasmtime::Config::default();
    config.consume_fuel(consume_fuel);
    wasmtime::Engine::new(&config)
}

/// `wasmtime::Module::new`: validates and compiles WASM bytes (or text) for
/// the engine. Claimed: a module it returns was compiled from `bytes`.
/// Whether it succeeds depends on the bytes, the engine's configuration and
/// the host machine, and is not claimed.
#[verifier::external_body]
fn module_new(engine: &wasmtime::Engine, bytes: &[u8]) -> (r: Result<
    wasmtime::Module,
    wasmtime::Error,
>)
    ensures
        r matches Ok(module) ==> module_source(module) == bytes@,
{
    wasmtime::Module::new(engine, bytes)
}

/// Pre-compiled WASM firmware image with its Wasmtime engine.
#[derive(Debug, Clone)]
pub struct Image {
    /// Wasmtime engine configured for fuel metering.
    engine: wasmtime::Engine,
    /// Compiled WASM module.
    module: wasmtime::Module,
    /// Fuel between async yield points.
    yield_interval: u64,
}

impl Image {
    /// The fuel between async yield points.
    pub closed spec fn spec_yield_interval(&self) -> u64 {
        self.yield_interval
    }

    /// Compiles WASM bytes into a reusable firmware image, on an engine that
    /// meters fuel: the image's module is compiled from `bytes`.
    ///
    /// Either step of the compilation may fail (invalid bytes, an unsupported
    /// host); both failures are reported as a compilation error.
    pub fn new(bytes: &[u8], yield_interval: u64) -> (r: Result<Self, RuntimeError>)
        ensures
            r matches Ok(img) ==> {
                &&& img.spec_yield_interval() == yield_interval
                &&& module_source(img.spec_module()) == bytes@
                &&& engine_consumes_fuel(img.spec_engine())
            },
            r matches Err(e) ==> e is CompilationError,
    {
        let engine = match engine_new(true) {
            Ok(engine) => engine,
            Err(e) => return Err(RuntimeError::CompilationError(e)),
        };
        let module = match module_new(&engine, bytes) {
            Ok(module) => module,
            Err(e) => return Err(RuntimeError::CompilationError(e)),
        };
        Ok(Image { engine, module, yield_interval })
    }

    /// The engine the image was compiled with.
    pub closed spec fn spec_engine(&self) -> wasmtime::Engine {
        self.engine
    }

    /// The image's compiled module.
    pub closed spec fn spec_module(&self) -> wasmtime::Module {
        self.module
    }

    /// The engine the module was compiled for.
    pub fn engine(&self) -> (r: &wasmtime::Engine)
        ensures
            *r == self.spec_engine(),
    {
        &self.engine
    }

    /// The compiled module.
    pub fn module(&self) -> (r: &wasmtime::Module)
        ensures
            *r == self.spec_module(),
    {
        &self.module
    }

    /// Fuel between async yield points.
    pub fn yield_interval(&self) -> (r: u64)
        ensures
            r == self.spec_yield_interval(),
    {
        self.yield_interval
    }
}

/// Typestate: firmware is compiled but not yet linked.
pub struct Compiled;

} // verus!
