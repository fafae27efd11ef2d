//! Fields of the guest-state area.

use vstd::prelude::*;

verus! {

/// Guest ES selector.
pub const ES_SELECTOR: u32 = 0x0800;

/// Guest CS selector.
pub const CS_SELECTOR: u32 = 0x0802;

/// Guest SS selector.
pub const SS_SELECTOR: u32 = 0x0804;

/// Guest DS selector.
pub const DS_SELECTOR: u32 = 0x0806;

/// Guest FS selector.
pub const FS_SELECTOR: u32 = 0x0808;

/// Guest GS selector.
pub const GS_SELECTOR: u32 = 0x080a;

/// Guest LDTR selector.
pub const LDTR_SELECTOR: u32 = 0x080c;

/// Guest TR selector.
pub const TR_SELECTOR: u32 = 0x080e;

/// Guest interrupt status.
pub const INTERRUPT_STATUS: u32 = 0x0810;

/// PML index.
pub const PML_INDEX: u32 = 0x0812;

/// VMCS link pointer (full).
pub const LINK_PTR_FULL: u32 = 0x2800;

/// Guest IA32_DEBUGCTL (full).
pub const IA32_DEBUGCTL_FULL: u32 = 0x2802;

/// Guest IA32_PAT (full).
pub const IA32_PAT_FULL: u32 = 0x2804;

/// Guest IA32_EFER (full).
pub const IA32_EFER_FULL: u32 = 0x2806;

/// Guest IA32_PERF_GLOBAL_CTRL (full).
pub const IA32_PERF_GLOBAL_CTRL_FULL: u32 = 0x2808;

/// Guest ES limit.
pub const ES_LIMIT: u32 = 0x4800;

/// Guest CS limit.
pub const CS_LIMIT: u32 = 0x4802;

/// Guest SS limit.
pub const SS_LIMIT: u32 = 0x4804;

/// Guest DS limit.
pub const DS_LIMIT: u32 = 0x4806;

/// Guest FS limit.
pub const FS_LIMIT: u32 = 0x4808;

/// Guest GS limit.
pub const GS_LIMIT: u32 = 0x480a;

/// Guest LDTR limit.
pub const LDTR_LIMIT: u32 = 0x480c;

/// Guest TR limit.
pub const TR_LIMIT: u32 = 0x480e;

/// Guest GDTR limit.
pub const GDTR_LIMIT: u32 = 0x4810;

/// Guest IDTR limit.
pub const IDTR_LIMIT: u32 = 0x4812;

/// Guest ES access rights.
pub const ES_ACCESS_RIGHTS: u32 = 0x4814;

/// Guest CS access rights.
pub const CS_ACCESS_RIGHTS: u32 = 0x4816;

/// Guest SS access rights.
pub const SS_ACCESS_RIGHTS: u32 = 0x4818;

/// Guest DS access rights.
pub const DS_ACCESS_RIGHTS: u32 = 0x481a;

/// Guest FS access rights.
pub const FS_ACCESS_RIGHTS: u32 = 0x481c;

/// Guest GS access rights.
pub const GS_ACCESS_RIGHTS: u32 = 0x481e;

/// Guest LDTR access rights.
pub const LDTR_ACCESS_RIGHTS: u32 = 0x4820;

/// Guest TR access rights.
pub const TR_ACCESS_RIGHTS: u32 = 0x4822;

/// Guest interruptibility state.
pub const INTERRUPTIBILITY_STATE: u32 = 0x4824;

/// Guest activity state.
pub const ACTIVITY_STATE: u32 = 0x4826;

/// Guest IA32_SYSENTER_CS.
pub const IA32_SYSENTER_CS: u32 = 0x482a;

/// VMX-preemption timer value.
pub const VMX_PREEMPTION_TIMER_VALUE: u32 = 0x482e;

/// Guest CR0.
pub const CR0: u32 = 0x6800;

/// Guest CR3.
pub const CR3: u32 = 0x6802;

/// Guest CR4.
pub const CR4: u32 = 0x6804;

/// Guest ES base.
pub const ES_BASE: u32 = 0x6806;

/// Guest CS base.
pub const CS_BASE: u32 = 0x6808;

/// Guest SS base.
pub const SS_BASE: u32 = 0x680a;

/// Guest DS base.
pub const DS_BASE: u32 = 0x680c;

/// Guest FS base.
pub const FS_BASE: u32 = 0x680e;

/// Guest GS base.
pub const GS_BASE: u32 = 0x6810;

/// Guest LDTR base.
pub const LDTR_BASE: u32 = 0x6812;

/// Guest TR base.
pub const TR_BASE: u32 = 0x6814;

/// Guest GDTR base.
pub const GDTR_BASE: u32 = 0x6816;

/// Guest IDTR base.
pub const IDTR_BASE: u32 = 0x6818;

/// Guest RSP.
pub const RSP: u32 = 0x681c;

/// Guest RIP.
pub const RIP: u32 = 0x681e;

/// Guest RFLAGS.
pub const RFLAGS: u32 = 0x6820;

/// Guest IA32_SYSENTER_ESP.
pub const IA32_SYSENTER_ESP: u32 = 0x6824;

/// Guest IA32_SYSENTER_EIP.
pub const IA32_SYSENTER_EIP: u32 = 0x6826;

} // verus!
