//! The MCU simulation runtime: budgets, lifecycle, firmware import checks.

pub mod budget;
pub mod state;
pub mod config;
pub mod mmio;

pub use config::Config;
pub mod executor;
pub mod firmware;
pub mod handle;
pub mod imports;
pub mod runtime;
