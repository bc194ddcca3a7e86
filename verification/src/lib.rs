//! A minimal hardware-abstraction layer for an 8-bit general-purpose I/O
//! port group: a register-level `Port` type offering single-bit
//! direction/read/write operations with read-modify-write discipline, a
//! busy-wait delay primitive, and a timed toggle loop that drives one pin
//! through a configurable high/low sequence.

pub mod bits;
pub mod delay;
pub mod port;
pub mod toggle;
