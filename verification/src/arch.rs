//! Calls into the `x86` and `x86_64` crates.
//!
//! Everything here is believed, not proved: each function makes one outside call on plain values,
//! and its contract says what that call returns.

use vstd::prelude::*;

verus! {

/// The bits of CR0 that have a name: PE, MP, EM, TS, ET, NE, WP, AM, NW, CD and PG.
pub const CR0_FLAGS: u64 = 0xe005_003f;

/// The VMX-enable flag of CR4, bit 13.
pub const CR4_VMXE: u64 = 0x2000;

/// The carry flag of RFLAGS, bit 0.
pub const FLAGS_CF: u64 = 0x1;

/// The zero flag of RFLAGS, bit 6.
pub const FLAGS_ZF: u64 = 0x40;

/// `x86::controlregs::Cr0::from_bits_truncate`: keeps the bits of CR0 that have a name and clears
/// every other bit.
#[verifier::external_body]
pub(crate) fn cr0_from_bits_truncate(bits: u64) -> (flags: u64)
    ensures
        flags == bits & CR0_FLAGS,
{
    x86::controlregs::Cr0::from_bits_truncate(bits as usize).bits() as u64
}

/// `x86_64::registers::control::Cr4Flags::set` with `VIRTUAL_MACHINE_EXTENSIONS` and `true`: sets
/// that flag and keeps every other bit.
#[verifier::external_body]
pub(crate) fn cr4_set_virtual_machine_extensions(bits: u64) -> (flags: u64)
    ensures
        flags == bits | CR4_VMXE,
{
    let mut cr4 = x86_64::registers::control::Cr4Flags::from_bits_retain(bits);
    cr4.set(x86_64::registers::control::Cr4Flags::VIRTUAL_MACHINE_EXTENSIONS, true);
    cr4.bits()
}

/// `x86::current::rflags::RFlags::contains`, on raw values: whether every bit of `flag` is set in
/// `flags`.
#[verifier::external_body]
pub(crate) fn rflags_contains(flags: u64, flag: u64) -> (contained: bool)
    ensures
        contained == (flags & flag == flag),
{
    x86::current::rflags::RFlags::from_raw(flags).contains(
        x86::current::rflags::RFlags::from_raw(flag),
    )
}

/// `x86::segmentation::SegmentSelector::index`: the index into the descriptor table, which is the
/// selector without its three low bits.
#[verifier::external_body]
pub(crate) fn selector_index(selector: u16) -> (index: u16)
    ensures
        index == selector / 8,
{
    x86::segmentation::SegmentSelector::from_raw(selector).index()
}

/// `x86::segmentation::Descriptor::as_u64`: the two halves of a descriptor as one value, `upper`
/// above `lower`.
#[verifier::external_body]
pub(crate) fn descriptor_as_u64(lower: u32, upper: u32) -> (value: u64)
    ensures
        value == upper * 0x1_0000_0000 + lower,
{
    x86::segmentation::Descriptor { lower, upper }.as_u64()
}

/// `x86::cpuid::CpuId::get_feature_info` and `FeatureInfo::has_vmx` on the processor that runs
/// this: `None` where the processor has no feature leaf, else whether it has VMX. Nothing is
/// claimed of the result, which depends on the machine alone.
#[verifier::external_body]
pub(crate) fn cpuid_has_vmx() -> (vmx: Option<bool>) {
    match x86::cpuid::CpuId::new().get_feature_info() {
        Some(feature_info) => Some(feature_info.has_vmx()),
        None => None,
    }
}

} // verus!
