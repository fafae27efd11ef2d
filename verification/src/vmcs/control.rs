//! VM-execution, VM-exit and VM-entry control fields.

use vstd::prelude::*;

verus! {

/// Virtual-processor identifier (VPID).
pub const VPID: u32 = 0x0000;

/// Pin-based VM-execution controls.
pub const PINBASED_EXEC_CONTROLS: u32 = 0x4000;

/// Primary processor-based VM-execution controls.
pub const PRIMARY_PROCBASED_EXEC_CONTROLS: u32 = 0x4002;

/// Exception bitmap.
pub const EXCEPTION_BITMAP: u32 = 0x4004;

/// VM-exit controls.
pub const VMEXIT_CONTROLS: u32 = 0x400c;

/// VM-entry controls.
pub const VMENTRY_CONTROLS: u32 = 0x4012;

/// Secondary processor-based VM-execution controls.
pub const SECONDARY_PROCBASED_EXEC_CONTROLS: u32 = 0x401e;

} // verus!
