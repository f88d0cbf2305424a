//! An 8-bit CPU interpreter with a memory-mapped video device.
pub mod cpu;
pub mod gpu;
