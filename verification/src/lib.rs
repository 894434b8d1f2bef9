//! A verified model of the boot-time text display of a freestanding kernel.
//!
//! The crate has two components. `vga_buffer` models the memory-mapped text
//! buffer that the display hardware renders: a fixed-size block of two-byte
//! cells (character code, then colour attribute), written by a single
//! display-writer routine. `boot` models the startup sequence of the entry
//! routine: it renders the fixed greeting into the buffer and reaches the
//! terminal halted state, from which no transition leaves.

pub mod boot;
pub mod vga_buffer;
