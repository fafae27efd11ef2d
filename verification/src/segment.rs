//! Segment selectors, and the base address of the task-state segment.

use vstd::prelude::*;
use crate::arch::{descriptor_as_u64, selector_index};
use crate::machine::Descriptor64;

verus! {

/// The current privilege level that a CS selector stands for.
pub open spec fn cpl_of(cs: u16) -> u16 {
    cs % 4
}

/// The current privilege level: the two low bits of the CS selector.
pub fn get_cpl(cs: u16) -> (cpl: u16)
    ensures
        cpl == cpl_of(cs),
        cpl == cs % 4,
{
    assert(cs & 0x3 == cs % 4) by (bit_vector);
    cs & 0x3  // Extract the lowest 2 bits
}

/// Where the 8-byte entry of a selector lies in the global descriptor table.
pub open spec fn entry_address(gdt_base: u64, selector: u16) -> int {
    gdt_base + (selector / 8) * 8
}

/// An 8-byte entry as one value.
pub open spec fn entry_value(lower: u32, upper: u32) -> int {
    upper * 0x1_0000_0000 + lower
}

/// The linear address of the 8-byte entry that the selector `tr` picks out of the global
/// descriptor table.
pub fn tr_descriptor_address(gdt_base: u64, tr: u16) -> (address: u64)
    requires
        gdt_base + (tr / 8) * 8 <= u64::MAX,
    ensures
        address == gdt_base + (tr / 8) * 8,
        address == entry_address(gdt_base, tr),
{
    let index: u16 = selector_index(tr);
    gdt_base + (index as u64) * 8
}

/// The 8-byte entry at [`tr_descriptor_address`] as one value, given its two halves. The base
/// address of the segment is spread over it; see [`get_tr_base2`] for the address itself.
pub fn get_tr_base(lower: u32, upper: u32) -> (descriptor: u64)
    ensures
        descriptor == upper * 0x1_0000_0000 + lower,
        descriptor == entry_value(lower, upper),
{
    descriptor_as_u64(lower, upper)
}

/// The linear address of the descriptor that the selector `tr` picks out of the global descriptor
/// table, the selector taken as a byte offset.
pub fn tr_descriptor_address2(gdt_base: u64, tr: u16) -> (address: u64)
    requires
        gdt_base + tr <= u64::MAX,
    ensures
        address == gdt_base + tr,
{
    gdt_base + tr as u64
}

/// The base address of a segment: the four parts that its descriptor holds, lowest first.
pub open spec fn segment_base(descriptor: Descriptor64) -> int {
    descriptor.base0 + descriptor.base1 * 0x1_0000 + descriptor.base2 * 0x100_0000
        + descriptor.base3 * 0x1_0000_0000
}

/// The base address of the task-state segment, given its descriptor.
pub fn get_tr_base2(trd64: Descriptor64) -> (tr_base: u64)
    ensures
        tr_base == segment_base(trd64),
{
    let base0: u64 = trd64.base0 as u64;
    let base1: u64 = trd64.base1 as u64;
    let base2: u64 = trd64.base2 as u64;
    let base3: u64 = trd64.base3 as u64;
    proof {
        assert(((base3 << 32) | (base0 | (base1 << 16)) | (base2 << 24)) == base0 + base1 * 0x1_0000
            + base2 * 0x100_0000 + base3 * 0x1_0000_0000) by (bit_vector)
            requires
                base0 <= 0xffff,
                base1 <= 0xff,
                base2 <= 0xff,
                base3 <= 0xffff_ffff,
        ;
    }
    (base3 << 32) | (base0 | (base1 << 16)) | (base2 << 24)
}

} // verus!
