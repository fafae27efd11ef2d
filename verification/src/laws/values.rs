//! Laws of the register values that the bring-up computes.

use vstd::prelude::*;
use crate::adjust::{
    allowed_controls, capability_msr_of, cr0_for_vmx, effective_controls, feature_control_enabled,
    feature_control_locked, required_controls, VmxControl,
    IA32_FEATURE_CONTROL_ENABLE_VMX_OUTSIDE_SMX_FLAG, IA32_FEATURE_CONTROL_LOCK_BIT_FLAG,
};
use crate::arch::CR0_FLAGS;
use crate::enable::{enable_vmx_spec, support_of, EnableVmx};
use crate::init::rights_of;
use crate::launch::{vm_outcome, LaunchReport};
use crate::machine::{field_value, physical_of, Descriptor64, Regions, VmFail};
use crate::segment::{cpl_of, entry_address, entry_value, segment_base};

verus! {

/// The adjusted CR0 meets what VMX operation demands: every bit that is fixed to 1 is set, and
/// every bit that is fixed to 0 is clear. Each named bit that is free is what it was. This is for a
/// processor that fixes no bit both ways, and none without a name to 1.
pub proof fn law_cr0_meets_fixed_bits(cr0: u64, fixed0: u64, fixed1: u64)
    requires
        fixed0 & fixed1 == fixed0,
        fixed0 & CR0_FLAGS == fixed0,
    ensures
        cr0_for_vmx(cr0, fixed0, fixed1) & fixed0 == fixed0,
        cr0_for_vmx(cr0, fixed0, fixed1) & fixed1 == cr0_for_vmx(cr0, fixed0, fixed1),
        cr0_for_vmx(cr0, fixed0, fixed1) & (fixed1 & !fixed0 & CR0_FLAGS) == cr0 & (fixed1 & !fixed0
            & CR0_FLAGS),
{
    assert(({
        let r = ((cr0 & fixed1) | fixed0) & 0xe005_003f;
        &&& r & fixed0 == fixed0
        &&& r & fixed1 == r
        &&& r & (fixed1 & !fixed0 & 0xe005_003f) == cr0 & (fixed1 & !fixed0 & 0xe005_003f)
    })) by (bit_vector)
        requires
            fixed0 & fixed1 == fixed0,
            fixed0 & 0xe005_003f == fixed0,
    ;
}

/// Adjusting CR0 a second time changes nothing.
pub proof fn law_cr0_adjusts_once(cr0: u64, fixed0: u64, fixed1: u64)
    ensures
        cr0_for_vmx(cr0_for_vmx(cr0, fixed0, fixed1), fixed0, fixed1) == cr0_for_vmx(
            cr0,
            fixed0,
            fixed1,
        ),
{
    assert(((((((cr0 & fixed1) | fixed0) & 0xe005_003f) & fixed1) | fixed0) & 0xe005_003f) == (((cr0
        & fixed1) | fixed0) & 0xe005_003f)) by (bit_vector);
}

/// `IA32_FEATURE_CONTROL` as it is written is locked and lets VMXON run outside SMX operation, and
/// every other bit of it is what it was. Being locked, it is not written a second time.
pub proof fn law_feature_control_enables_vmx(feature_control: u64)
    ensures
        feature_control_locked(feature_control_enabled(feature_control)),
        feature_control_enabled(feature_control) & IA32_FEATURE_CONTROL_LOCK_BIT_FLAG
            == IA32_FEATURE_CONTROL_LOCK_BIT_FLAG,
        feature_control_enabled(feature_control)
            & IA32_FEATURE_CONTROL_ENABLE_VMX_OUTSIDE_SMX_FLAG
            == IA32_FEATURE_CONTROL_ENABLE_VMX_OUTSIDE_SMX_FLAG,
        feature_control_enabled(feature_control) & !(IA32_FEATURE_CONTROL_LOCK_BIT_FLAG
            | IA32_FEATURE_CONTROL_ENABLE_VMX_OUTSIDE_SMX_FLAG) == feature_control & !(
        IA32_FEATURE_CONTROL_LOCK_BIT_FLAG | IA32_FEATURE_CONTROL_ENABLE_VMX_OUTSIDE_SMX_FLAG),
{
    assert(({
        let w = feature_control | 0x4 | 0x1;
        &&& w & 0x1 != 0
        &&& w & 0x1 == 0x1
        &&& w & 0x4 == 0x4
        &&& w & !(0x1u64 | 0x4) == feature_control & !(0x1u64 | 0x4)
    })) by (bit_vector);
}

/// The effective controls meet their capability MSR: every control that has to be 1 is, and no
/// control is that may not be. Each control that is free is as requested. This is for capabilities
/// that allow every control that they require.
pub proof fn law_controls_meet_capabilities(capabilities: u64, requested: u64)
    requires
        required_controls(capabilities) & allowed_controls(capabilities) == required_controls(
            capabilities,
        ),
    ensures
        effective_controls(capabilities, requested) & required_controls(capabilities)
            == required_controls(capabilities),
        effective_controls(capabilities, requested) & allowed_controls(capabilities)
            == effective_controls(capabilities, requested),
        effective_controls(capabilities, requested) & (allowed_controls(capabilities)
            & !required_controls(capabilities)) == requested & (allowed_controls(capabilities)
            & !required_controls(capabilities)),
{
    let required = required_controls(capabilities);
    let allowed = allowed_controls(capabilities);
    assert(({
        let e = (requested | required) & allowed;
        &&& e & required == required
        &&& e & allowed == e
        &&& e & (allowed & !required) == requested & (allowed & !required)
    })) by (bit_vector)
        requires
            required & allowed == required,
    ;
}

/// The effective controls are never more than is allowed, whatever is required, and fit the 32
/// bits of their field. Adjusting them a second time changes nothing.
pub proof fn law_controls_adjust_once(capabilities: u64, requested: u64)
    ensures
        effective_controls(capabilities, requested) & allowed_controls(capabilities)
            == effective_controls(capabilities, requested),
        effective_controls(capabilities, requested) <= u32::MAX,
        effective_controls(capabilities, effective_controls(capabilities, requested))
            == effective_controls(capabilities, requested),
{
    assert(({
        let e = (requested | (capabilities & 0xffff_ffff)) & (capabilities >> 32);
        &&& e & (capabilities >> 32) == e
        &&& e <= 0xffff_ffff
        &&& (e | (capabilities & 0xffff_ffff)) & (capabilities >> 32) == e
    })) by (bit_vector);
}

/// A base address that is laid out in a descriptor is read back from it.
pub proof fn law_segment_base_is_read_back(base: u64, descriptor: Descriptor64)
    requires
        descriptor.base0 == base % 0x1_0000,
        descriptor.base1 == (base / 0x1_0000) % 0x100,
        descriptor.base2 == (base / 0x100_0000) % 0x100,
        descriptor.base3 == base / 0x1_0000_0000,
    ensures
        segment_base(descriptor) == base,
{
}

/// The base address of a segment fits an address.
pub proof fn law_segment_base_is_an_address(descriptor: Descriptor64)
    ensures
        0 <= segment_base(descriptor) <= u64::MAX,
{
}

/// A launch succeeds where both flags are clear, and only there.
pub proof fn law_launch_succeeds_on_clear_flags(flags: u64)
    ensures
        vm_outcome(flags) is Succeed <==> flags & 0x41 == 0,
{
    assert(flags & 0x41 == 0 <==> (flags & 0x40 != 0x40 && flags & 0x1 != 0x1)) by (bit_vector);
}

/// Bit `n` of a value.
pub open spec fn bit(value: u64, n: u64) -> bool {
    (value >> n) & 1 == 1
}

/// Every bit of the adjusted CR0: bits 0 to 5, 16, 18 and 29 to 31 are set where they are fixed to
/// 1, or where they were set and may be; all others are clear.
pub proof fn law_cr0_bit_by_bit(cr0: u64, fixed0: u64, fixed1: u64, n: u64)
    requires
        n < 64,
    ensures
        bit(cr0_for_vmx(cr0, fixed0, fixed1), n) <==> {
            &&& n <= 5 || n == 16 || n == 18 || 29 <= n <= 31
            &&& bit(fixed0, n) || (bit(cr0, n) && bit(fixed1, n))
        },
{
    assert(((((cr0 & fixed1) | fixed0) & 0xe005_003f) >> n) & 1 == 1 <==> ((n <= 5 || n == 16 || n
        == 18 || (29 <= n && n <= 31)) && ((fixed0 >> n) & 1 == 1 || ((cr0 >> n) & 1 == 1 && (fixed1
        >> n) & 1 == 1)))) by (bit_vector)
        requires
            n < 64,
    ;
}

/// `IA32_FEATURE_CONTROL` is locked where it is odd.
pub proof fn law_feature_control_locks_on_bit_0(feature_control: u64)
    ensures
        feature_control_locked(feature_control) <==> feature_control % 2 == 1,
{
    assert(feature_control & 0x1 != 0 <==> feature_control % 2 == 1) by (bit_vector);
}

/// Every bit of `IA32_FEATURE_CONTROL` as it is written: bits 0 and 2 are set, and every other bit
/// is what it was.
pub proof fn law_feature_control_bit_by_bit(feature_control: u64, n: u64)
    requires
        n < 64,
    ensures
        bit(feature_control_enabled(feature_control), n) <==> (n == 0 || n == 2 || bit(
            feature_control,
            n,
        )),
{
    assert(((feature_control | 0x4 | 0x1) >> n) & 1 == 1 <==> (n == 0 || n == 2 || (feature_control
        >> n) & 1 == 1)) by (bit_vector)
        requires
            n < 64,
    ;
}

/// The MSR that is consulted for a group of controls, by address. Bit 55 of `IA32_VMX_BASIC` and no
/// other bit of it chooses between the two MSRs of a group, and the secondary controls have one.
pub proof fn law_capability_msr_follows_bit_55(vmx_basic: u64)
    ensures
        bit(vmx_basic, 55) ==> {
            &&& capability_msr_of(VmxControl::PinBased, vmx_basic) == 0x48d
            &&& capability_msr_of(VmxControl::ProcessorBased, vmx_basic) == 0x48e
            &&& capability_msr_of(VmxControl::VmExit, vmx_basic) == 0x48f
            &&& capability_msr_of(VmxControl::VmEntry, vmx_basic) == 0x490
        },
        !bit(vmx_basic, 55) ==> {
            &&& capability_msr_of(VmxControl::PinBased, vmx_basic) == 0x481
            &&& capability_msr_of(VmxControl::ProcessorBased, vmx_basic) == 0x482
            &&& capability_msr_of(VmxControl::VmExit, vmx_basic) == 0x483
            &&& capability_msr_of(VmxControl::VmEntry, vmx_basic) == 0x484
        },
        capability_msr_of(VmxControl::ProcessorBased2, vmx_basic) == 0x48b,
{
    assert(vmx_basic & 0x80_0000_0000_0000 != 0 <==> (vmx_basic >> 55) & 1 == 1) by (bit_vector);
}

/// Two processors whose `IA32_VMX_BASIC` agree in bit 55 are asked for the same MSR.
pub proof fn law_capability_msr_ignores_other_bits(control: VmxControl, first: u64, second: u64)
    requires
        bit(first, 55) == bit(second, 55),
    ensures
        capability_msr_of(control, first) == capability_msr_of(control, second),
{
    law_capability_msr_follows_bit_55(first);
    law_capability_msr_follows_bit_55(second);
}

/// Every bit of the effective controls: it is set where the upper half of the capability MSR allows
/// it, and it is requested or the lower half requires it. Nothing lies above bit 31.
pub proof fn law_controls_bit_by_bit(capabilities: u64, requested: u64, n: u64)
    requires
        n < 64,
    ensures
        n < 32 ==> (bit(effective_controls(capabilities, requested), n) <==> {
            &&& bit(capabilities, (n + 32) as u64)
            &&& bit(requested, n) || bit(capabilities, n)
        }),
        n >= 32 ==> !bit(effective_controls(capabilities, requested), n),
{
    let m = (n + 32) as u64;
    assert(n < 32 ==> ((((requested | (capabilities & 0xffff_ffff)) & (capabilities >> 32)) >> n) & 1
        == 1 <==> ((capabilities >> m) & 1 == 1 && ((requested >> n) & 1 == 1 || (capabilities >> n)
        & 1 == 1)))) by (bit_vector)
        requires
            n < 64,
            m == n + 32,
    ;
    assert(n >= 32 ==> (((requested | (capabilities & 0xffff_ffff)) & (capabilities >> 32)) >> n) & 1
        != 1) by (bit_vector)
        requires
            n < 64,
    ;
}

/// What the flags register says of a launch, for each outcome: bit 6 alone makes it a valid
/// failure; bit 0 makes it an invalid one where bit 6 is clear; and both clear make it a success.
pub proof fn law_launch_outcome_follows_bits_6_and_0(flags: u64)
    ensures
        vm_outcome(flags) is FailValid <==> bit(flags, 6),
        vm_outcome(flags) is FailInvalid <==> !bit(flags, 6) && bit(flags, 0),
        vm_outcome(flags) is Succeed <==> !bit(flags, 6) && !bit(flags, 0),
{
    assert(flags & 0x40 == 0x40 <==> (flags >> 6) & 1 == 1) by (bit_vector);
    assert(flags & 0x1 == 0x1 <==> (flags >> 0) & 1 == 1) by (bit_vector);
}

/// Only an exit of the guest counts as a success of the launch.
pub proof fn law_only_exits_succeed(error: u64, reason: u32)
    ensures
        (LaunchReport::Exited { reason }).succeeded_spec(),
        !(LaunchReport::FailValid { error }).succeeded_spec(),
        !LaunchReport::FailInvalid.succeeded_spec(),
{
}

/// A null selector has the access rights of an unusable segment, and every other selector those of
/// a writable data segment.
pub proof fn law_access_rights_tell_null_selectors(selector: u64)
    ensures
        selector == 0 ==> rights_of(selector) == 0x1_0000,
        selector != 0 ==> rights_of(selector) == 0xc093,
{
}

/// VMREAD is taken at its word where it succeeds, and for 0 where it fails, whichever way.
pub proof fn law_failed_vmread_counts_as_zero(value: u64, fail: VmFail)
    ensures
        field_value(Ok(value)) == value,
        field_value(Err(fail)) == 0,
{
}

/// VMX is supported where CPUID shows its bit, unsupported where it shows it clear, and unknown
/// where it shows nothing. VMX operation is entered in the first case and in no other.
pub proof fn law_vmx_is_entered_where_cpuid_shows_it(vmx: Option<bool>)
    ensures
        support_of(vmx) is Supported <==> vmx == Some(true),
        support_of(vmx) is Unsupported <==> vmx == Some(false),
        support_of(vmx) is Unknown <==> vmx is None,
        enable_vmx_spec(support_of(vmx)) is Some <==> vmx == Some(true),
        enable_vmx_spec(support_of(vmx)) matches Some(enable) ==> enable == EnableVmx::ReadCr4,
{
}

/// Physical addresses count from the address at which the kernel image is linked, and both regions
/// have one exactly where neither lies below it.
pub proof fn law_physical_addresses_count_from_the_image(regions: Regions, linear: u64)
    ensures
        physical_of(linear) + 0xffff_ffff_8000_0000 == linear,
        regions.wf() <==> {
            &&& regions.vmxon >= 0xffff_ffff_8000_0000
            &&& regions.vmcs >= 0xffff_ffff_8000_0000
        },
{
}

/// The privilege level is what is left of the CS selector beyond a multiple of four.
pub proof fn law_cpl_is_the_remainder(cs: u16)
    ensures
        0 <= cpl_of(cs) <= 3,
        (cs - cpl_of(cs)) % 4 == 0,
{
}

/// The entry of a selector is the one of the eight-byte entries of the table that the selector
/// points into; and its value has its two halves in their places.
pub proof fn law_entries_are_eight_bytes(gdt_base: u64, selector: u16, lower: u32, upper: u32)
    ensures
        (entry_address(gdt_base, selector) - gdt_base) % 8 == 0,
        entry_address(gdt_base, selector) <= gdt_base + selector < entry_address(gdt_base, selector)
            + 8,
        entry_value(lower, upper) / 0x1_0000_0000 == upper,
        entry_value(lower, upper) % 0x1_0000_0000 == lower as int,
{
}

} // verus!
