//! Encodings of the fields of the virtual-machine control structure (VMCS).
//!
//! Bits 14:13 of an encoding give the width of the field: 0 for 16 bits, 1 for 64 bits, 2 for
//! 32 bits and 3 for the natural width of the processor.

pub mod control;
pub mod guest;
pub mod host;
pub mod ro;
