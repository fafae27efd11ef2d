//! Read-only data fields, filled in by the processor.

use vstd::prelude::*;

verus! {

/// VM-instruction error.
pub const VM_INSTRUCTION_ERROR: u32 = 0x4400;

/// Exit reason.
pub const EXIT_REASON: u32 = 0x4402;

} // verus!
