//! Addresses of the model-specific registers (MSRs) that the bring-up reads and writes.

use vstd::prelude::*;

verus! {

/// Control features in the processor: the lock bit and the VMX enable bits.
pub const IA32_FEATURE_CONTROL: u32 = 0x3a;

/// Code segment that SYSENTER loads.
pub const SYSENTER_CS_MSR: u32 = 0x174;

/// Stack pointer that SYSENTER loads.
pub const SYSENTER_ESP_MSR: u32 = 0x175;

/// Instruction pointer that SYSENTER loads.
pub const SYSENTER_EIP_MSR: u32 = 0x176;

/// Basic VMX information: the VMCS revision identifier, and whether the TRUE capability MSRs exist.
pub const IA32_VMX_BASIC: u32 = 0x480;

/// Capabilities of the pin-based VM-execution controls.
pub const IA32_VMX_PINBASED_CTLS: u32 = 0x481;

/// Capabilities of the primary processor-based VM-execution controls.
pub const IA32_VMX_PROCBASED_CTLS: u32 = 0x482;

/// Capabilities of the VM-exit controls.
pub const IA32_VMX_EXIT_CTLS: u32 = 0x483;

/// Capabilities of the VM-entry controls.
pub const IA32_VMX_ENTRY_CTLS: u32 = 0x484;

/// Bits of CR0 that are fixed to 1 in VMX operation.
pub const IA32_VMX_CR0_FIXED0: u32 = 0x486;

/// Bits of CR0 that may be 1 in VMX operation.
pub const IA32_VMX_CR0_FIXED1: u32 = 0x487;

/// Capabilities of the secondary processor-based VM-execution controls.
pub const IA32_VMX_PROCBASED_CTLS2: u32 = 0x48b;

/// Capabilities of the pin-based VM-execution controls, default settings left out.
pub const IA32_VMX_TRUE_PINBASED_CTLS: u32 = 0x48d;

/// Capabilities of the primary processor-based controls, default settings left out.
pub const IA32_VMX_TRUE_PROCBASED_CTLS: u32 = 0x48e;

/// Capabilities of the VM-exit controls, default settings left out.
pub const IA32_VMX_TRUE_EXIT_CTLS: u32 = 0x48f;

/// Capabilities of the VM-entry controls, default settings left out.
pub const IA32_VMX_TRUE_ENTRY_CTLS: u32 = 0x490;

/// Base address of the FS segment.
pub const IA32_FS_BASE: u32 = 0xc000_0100;

/// Base address of the GS segment.
pub const IA32_GS_BASE: u32 = 0xc000_0101;

} // verus!
