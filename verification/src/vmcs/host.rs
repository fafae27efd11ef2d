//! Fields of the host-state area.

use vstd::prelude::*;

verus! {

/// Host ES selector.
pub const ES_SELECTOR: u32 = 0x0c00;

/// Host CS selector.
pub const CS_SELECTOR: u32 = 0x0c02;

/// Host SS selector.
pub const SS_SELECTOR: u32 = 0x0c04;

/// Host DS selector.
pub const DS_SELECTOR: u32 = 0x0c06;

/// Host FS selector.
pub const FS_SELECTOR: u32 = 0x0c08;

/// Host GS selector.
pub const GS_SELECTOR: u32 = 0x0c0a;

/// Host TR selector.
pub const TR_SELECTOR: u32 = 0x0c0c;

/// Host IA32_PAT (full).
pub const IA32_PAT_FULL: u32 = 0x2c00;

/// Host IA32_EFER (full).
pub const IA32_EFER_FULL: u32 = 0x2c02;

/// Host IA32_PERF_GLOBAL_CTRL (full).
pub const IA32_PERF_GLOBAL_CTRL_FULL: u32 = 0x2c04;

/// Host IA32_SYSENTER_CS.
pub const IA32_SYSENTER_CS: u32 = 0x4c00;

/// Host CR0.
pub const CR0: u32 = 0x6c00;

/// Host CR3.
pub const CR3: u32 = 0x6c02;

/// Host CR4.
pub const CR4: u32 = 0x6c04;

/// Host FS base.
pub const FS_BASE: u32 = 0x6c06;

/// Host GS base.
pub const GS_BASE: u32 = 0x6c08;

/// Host TR base.
pub const TR_BASE: u32 = 0x6c0a;

/// Host GDTR base.
pub const GDTR_BASE: u32 = 0x6c0c;

/// Host IDTR base.
pub const IDTR_BASE: u32 = 0x6c0e;

/// Host IA32_SYSENTER_ESP.
pub const IA32_SYSENTER_ESP: u32 = 0x6c10;

/// Host IA32_SYSENTER_EIP.
pub const IA32_SYSENTER_EIP: u32 = 0x6c12;

} // verus!
