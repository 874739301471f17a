//! Package power and thermal limits for Intel CPUs, computed as register
//! values: bit-exact codecs for the temperature target, the RAPL unit
//! descriptors and the package power limit, the table of encodable time
//! windows, the planner that turns a configuration into pending register
//! writes, per-CPU register access sessions, and the power-source monitor.
//!
//! Everything here works on plain values; the caller performs the register
//! and indicator I/O and hands the results in.

pub mod codec;
pub mod msr;
pub mod orchestrator;
pub mod planner;
pub mod power;
pub mod quantizer;
