//! Register values that VMX operation demands, computed from what the processor says it allows.

use vstd::prelude::*;
use crate::arch::{
    cr0_from_bits_truncate, cr4_set_virtual_machine_extensions, CR0_FLAGS, CR4_VMXE,
};
use crate::msr;

verus! {

/// `IA32_FEATURE_CONTROL` bit 0: the register is locked until the next reset.
pub const IA32_FEATURE_CONTROL_LOCK_BIT_FLAG: u64 = 0x1;

/// `IA32_FEATURE_CONTROL` bit 2: VMXON is allowed outside SMX operation.
pub const IA32_FEATURE_CONTROL_ENABLE_VMX_OUTSIDE_SMX_FLAG: u64 = 0x4;

/// `IA32_VMX_BASIC` bit 55: the processor has the TRUE capability MSRs.
pub const IA32_VMX_BASIC_VMX_CONTROLS_FLAG: u64 = 0x80_0000_0000_0000;

/// The groups of VMX controls that a capability MSR constrains.
#[derive(Clone, Copy, Debug, PartialEq, Eq)]
pub enum VmxControl {
    PinBased,
    ProcessorBased,
    ProcessorBased2,
    VmExit,
    VmEntry,
}

/// CR0 with the bits that `fixed1` has clear cleared, then those that `fixed0` has set set.
pub open spec fn cr0_for_vmx(cr0: u64, fixed0: u64, fixed1: u64) -> u64 {
    ((cr0 & fixed1) | fixed0) & CR0_FLAGS
}

/// Adjusts CR0 to what VMX operation demands.
///
/// A bit that is set in `fixed0` (`IA32_VMX_CR0_FIXED0`) has to be 1, one that is clear in
/// `fixed1` (`IA32_VMX_CR0_FIXED1`) has to be 0, and every other bit is free. Bits of CR0 that
/// have no name come out clear.
pub fn adjust_cr0(cr0: u64, fixed0: u64, fixed1: u64) -> (adjusted: u64)
    ensures
        adjusted == cr0_for_vmx(cr0, fixed0, fixed1),
{
    let mut new_cr0: u64 = cr0;
    new_cr0 &= fixed1;
    new_cr0 |= fixed0;
    cr0_from_bits_truncate(new_cr0)
}

/// CR4 with VMX enabled and every other flag as it was.
pub fn cr4_vmx_enable(cr4: u64) -> (enabled: u64)
    ensures
        enabled == cr4 | CR4_VMXE,
{
    cr4_set_virtual_machine_extensions(cr4)
}

/// Whether `IA32_FEATURE_CONTROL` is locked.
pub open spec fn feature_control_locked(feature_control: u64) -> bool {
    feature_control & IA32_FEATURE_CONTROL_LOCK_BIT_FLAG != 0
}

/// `IA32_FEATURE_CONTROL` with VMXON allowed outside SMX operation, and locked.
pub open spec fn feature_control_enabled(feature_control: u64) -> u64 {
    feature_control | IA32_FEATURE_CONTROL_ENABLE_VMX_OUTSIDE_SMX_FLAG
        | IA32_FEATURE_CONTROL_LOCK_BIT_FLAG
}

/// The value to write to `IA32_FEATURE_CONTROL` so that VMXON is allowed, given what it holds.
/// There is nothing to write where the register is already locked.
pub fn adjust_feature_control_msr(feature_control: u64) -> (write: Option<u64>)
    ensures
        write == (if feature_control_locked(feature_control) {
            None::<u64>
        } else {
            Some(feature_control_enabled(feature_control))
        }),
{
    if (feature_control & IA32_FEATURE_CONTROL_LOCK_BIT_FLAG) == 0 {
        Some(
            feature_control | IA32_FEATURE_CONTROL_ENABLE_VMX_OUTSIDE_SMX_FLAG
                | IA32_FEATURE_CONTROL_LOCK_BIT_FLAG,
        )
    } else {
        None
    }
}

/// Whether the processor has the TRUE capability MSRs.
pub open spec fn true_controls(vmx_basic: u64) -> bool {
    vmx_basic & IA32_VMX_BASIC_VMX_CONTROLS_FLAG != 0
}

/// The MSR that says which settings of a control are allowed. There is no TRUE MSR for the
/// secondary processor-based controls.
pub open spec fn capability_msr_of(control: VmxControl, vmx_basic: u64) -> u32 {
    match control {
        VmxControl::PinBased => if true_controls(vmx_basic) {
            msr::IA32_VMX_TRUE_PINBASED_CTLS
        } else {
            msr::IA32_VMX_PINBASED_CTLS
        },
        VmxControl::ProcessorBased => if true_controls(vmx_basic) {
            msr::IA32_VMX_TRUE_PROCBASED_CTLS
        } else {
            msr::IA32_VMX_PROCBASED_CTLS
        },
        VmxControl::ProcessorBased2 => msr::IA32_VMX_PROCBASED_CTLS2,
        VmxControl::VmExit => if true_controls(vmx_basic) {
            msr::IA32_VMX_TRUE_EXIT_CTLS
        } else {
            msr::IA32_VMX_EXIT_CTLS
        },
        VmxControl::VmEntry => if true_controls(vmx_basic) {
            msr::IA32_VMX_TRUE_ENTRY_CTLS
        } else {
            msr::IA32_VMX_ENTRY_CTLS
        },
    }
}

/// The MSR to consult for the allowed settings of `control`, given `IA32_VMX_BASIC`.
pub fn capability_msr(control: VmxControl, vmx_basic: u64) -> (cap_msr: u32)
    ensures
        cap_msr == capability_msr_of(control, vmx_basic),
{
    let true_cap_msr_supported = (vmx_basic & IA32_VMX_BASIC_VMX_CONTROLS_FLAG) != 0;
    match (control, true_cap_msr_supported) {
        (VmxControl::PinBased, true) => msr::IA32_VMX_TRUE_PINBASED_CTLS,
        (VmxControl::PinBased, false) => msr::IA32_VMX_PINBASED_CTLS,
        (VmxControl::ProcessorBased, true) => msr::IA32_VMX_TRUE_PROCBASED_CTLS,
        (VmxControl::ProcessorBased, false) => msr::IA32_VMX_PROCBASED_CTLS,
        (VmxControl::VmExit, true) => msr::IA32_VMX_TRUE_EXIT_CTLS,
        (VmxControl::VmExit, false) => msr::IA32_VMX_EXIT_CTLS,
        (VmxControl::VmEntry, true) => msr::IA32_VMX_TRUE_ENTRY_CTLS,
        (VmxControl::VmEntry, false) => msr::IA32_VMX_ENTRY_CTLS,
        (VmxControl::ProcessorBased2, _) => msr::IA32_VMX_PROCBASED_CTLS2,
    }
}

/// The lower half of a capability MSR: the controls that have to be 1.
pub open spec fn required_controls(capabilities: u64) -> u64 {
    capabilities & 0xffff_ffff
}

/// The upper half of a capability MSR: the controls that may be 1.
pub open spec fn allowed_controls(capabilities: u64) -> u64 {
    capabilities >> 32
}

/// The requested controls with the required ones added, and then those not allowed taken out.
pub open spec fn effective_controls(capabilities: u64, requested: u64) -> u64 {
    (requested | required_controls(capabilities)) & allowed_controls(capabilities)
}

/// Adjusts a 32-bit control value to the capability MSR of its control.
pub fn adjust_vmx_control(capabilities: u64, requested_value: u64) -> (effective: u64)
    requires
        requested_value <= u32::MAX,
    ensures
        effective == effective_controls(capabilities, requested_value),
        effective <= u32::MAX,
{
    let allowed0: u32 = capabilities as u32;
    let allowed1: u32 = (capabilities >> 32) as u32;
    let mut effective_value: u32 = requested_value as u32;
    effective_value |= allowed0;
    effective_value &= allowed1;
    proof {
        assert((((requested_value as u32) | (capabilities as u32)) & ((capabilities >> 32)
            as u32)) as u64 == (requested_value | (capabilities & 0xffff_ffff)) & (capabilities
            >> 32)) by (bit_vector)
            requires
                requested_value <= 0xffff_ffff,
        ;
    }
    effective_value as u64
}

/// The VMCS revision identifier that `IA32_VMX_BASIC` holds in its lower half.
pub fn revision_id(vmx_basic: u64) -> (revision: u32)
    ensures
        revision == vmx_basic % 0x1_0000_0000,
{
    assert(vmx_basic as u32 == vmx_basic % 0x1_0000_0000) by (bit_vector);
    vmx_basic as u32
}

} // verus!
