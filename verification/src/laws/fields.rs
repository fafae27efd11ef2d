//! Laws of the VMCS that the bring-up leaves behind.

use vstd::prelude::*;
use crate::adjust::{capability_msr_of, effective_controls, VmxControl};
use crate::arch::CR0_FLAGS;
use crate::init::{
    rights_of, vmcs_plan, Fetch, CODE_SEGMENT, DATA_SEGMENT, TASK_STATE_SEGMENT, UNUSABLE_SEGMENT,
    VMCS_ENTRIES,
};
use crate::laws::values::law_controls_adjust_once;
use crate::machine::{field_value, Regions, Segment, VmFail};
use crate::model::{fit, vmread_of, Processor, CR4_NAMED};
use crate::msr;
use crate::segment::segment_base;
use crate::vmcs::{control, guest, host};

verus! {

/// No field is written twice.
pub proof fn law_fields_are_distinct(regions: Regions, i: usize, j: usize)
    requires
        i < j < VMCS_ENTRIES,
    ensures
        vmcs_plan(regions, i).field != vmcs_plan(regions, j).field,
{
}

/// A field that is copied, or whose selector decides access rights, is not written after it has
/// been read, and has the width of the field that it is copied to.
proof fn lemma_sources_are_settled(regions: Regions, i: usize, j: usize)
    requires
        i <= j < VMCS_ENTRIES,
    ensures
        vmcs_plan(regions, i).value matches Fetch::Field(source) ==> vmcs_plan(regions, j).field
            != source && source / 0x2000 % 4 == vmcs_plan(regions, i).field / 0x2000 % 4,
        vmcs_plan(regions, i).value matches Fetch::AccessRights(selector) ==> vmcs_plan(
            regions,
            j,
        ).field != selector,
{
}

/// Writing a field leaves alone every part of the processor but the VMCS.
pub proof fn law_only_the_vmcs_is_filled(processor: Processor, regions: Regions, count: nat)
    ensures
        processor.filled(regions, count) == (Processor {
            vmcs: processor.filled(regions, count).vmcs,
            ..processor
        }),
    decreases count,
{
    if count > 0 {
        law_only_the_vmcs_is_filled(processor, regions, (count - 1) as nat);
    }
}

/// Every field holds what its width allows, however many fields have been written.
proof fn lemma_fields_fit(processor: Processor, regions: Regions, count: nat)
    requires
        processor.wf(),
    ensures
        processor.filled(regions, count).wf(),
    decreases count,
{
    if count > 0 {
        lemma_fields_fit(processor, regions, (count - 1) as nat);
    }
}

/// A field keeps its value while others are written.
proof fn lemma_field_is_kept(
    processor: Processor,
    regions: Regions,
    field: u32,
    from: nat,
    to: nat,
)
    requires
        from <= to <= VMCS_ENTRIES,
        forall|j: usize| from <= j < to ==> #[trigger] vmcs_plan(regions, j).field != field,
    ensures
        vmread_of(processor.filled(regions, to).vmcs, field) == vmread_of(
            processor.filled(regions, from).vmcs,
            field,
        ),
    decreases to - from,
{
    if from < to {
        lemma_field_is_kept(processor, regions, field, from, (to - 1) as nat);
        assert(vmcs_plan(regions, (to - 1) as usize).field != field);
    }
}

/// Every field of the plan ends up with the value that was fetched for it when its turn came.
pub proof fn law_every_field_is_written(processor: Processor, regions: Regions, index: usize)
    requires
        index < VMCS_ENTRIES,
    ensures
        vmread_of(
            processor.filled(regions, VMCS_ENTRIES as nat).vmcs,
            vmcs_plan(regions, index).field,
        ) == Ok::<u64, VmFail>(
            fit(
                vmcs_plan(regions, index).field,
                processor.filled(regions, index as nat).fetched(vmcs_plan(regions, index).value),
            ),
        ),
{
    let field = vmcs_plan(regions, index).field;
    assert forall|j: usize| index + 1 <= j < VMCS_ENTRIES implies #[trigger] vmcs_plan(
        regions,
        j,
    ).field != field by {
        law_fields_are_distinct(regions, index, j);
    }
    lemma_field_is_kept(
        processor,
        regions,
        field,
        (index + 1) as nat,
        VMCS_ENTRIES as nat,
    );
}

/// A field outside the plan is what it was.
pub proof fn law_other_fields_are_untouched(processor: Processor, regions: Regions, field: u32)
    requires
        forall|j: usize| j < VMCS_ENTRIES ==> #[trigger] vmcs_plan(regions, j).field != field,
    ensures
        vmread_of(processor.filled(regions, VMCS_ENTRIES as nat).vmcs, field) == vmread_of(
            processor.vmcs,
            field,
        ),
{
    lemma_field_is_kept(processor, regions, field, 0, VMCS_ENTRIES as nat);
}

/// A guest field that is copied from a host field holds what the host field holds in the end, and
/// 0 where the host field cannot be read.
pub proof fn law_copies_agree(processor: Processor, regions: Regions, index: usize, source: u32)
    requires
        processor.wf(),
        index < VMCS_ENTRIES,
        vmcs_plan(regions, index).value == Fetch::Field(source),
    ensures
        vmread_of(
            processor.filled(regions, VMCS_ENTRIES as nat).vmcs,
            vmcs_plan(regions, index).field,
        ) == Ok::<u64, VmFail>(
            field_value(
                vmread_of(processor.filled(regions, VMCS_ENTRIES as nat).vmcs, source),
            ),
        ),
{
    law_every_field_is_written(processor, regions, index);
    assert forall|j: usize| index <= j < VMCS_ENTRIES implies #[trigger] vmcs_plan(
        regions,
        j,
    ).field != source by {
        lemma_sources_are_settled(regions, index, j);
    }
    lemma_field_is_kept(processor, regions, source, index as nat, VMCS_ENTRIES as nat);
    lemma_fields_fit(processor, regions, index as nat);
    lemma_sources_are_settled(regions, index, index);
}

/// The access rights that depend on a selector go with the selector that the guest has in the end.
pub proof fn law_access_rights_agree(
    processor: Processor,
    regions: Regions,
    index: usize,
    selector: u32,
)
    requires
        index < VMCS_ENTRIES,
        vmcs_plan(regions, index).value == Fetch::AccessRights(selector),
    ensures
        vmread_of(
            processor.filled(regions, VMCS_ENTRIES as nat).vmcs,
            vmcs_plan(regions, index).field,
        ) == Ok::<u64, VmFail>(
            rights_of(
                field_value(
                    vmread_of(processor.filled(regions, VMCS_ENTRIES as nat).vmcs, selector),
                ),
            ),
        ),
{
    law_every_field_is_written(processor, regions, index);
    assert forall|j: usize| index <= j < VMCS_ENTRIES implies #[trigger] vmcs_plan(
        regions,
        j,
    ).field != selector by {
        lemma_sources_are_settled(regions, index, j);
    }
    lemma_field_is_kept(processor, regions, selector, index as nat, VMCS_ENTRIES as nat);
    lemma_sources_are_settled(regions, index, index);
}

/// A guest field and the host field that it is copied from agree in the end.
proof fn lemma_pair_agrees(
    processor: Processor,
    regions: Regions,
    host_index: usize,
    guest_index: usize,
)
    requires
        processor.wf(),
        host_index < VMCS_ENTRIES,
        guest_index < VMCS_ENTRIES,
        vmcs_plan(regions, guest_index).value == Fetch::Field(
            vmcs_plan(regions, host_index).field,
        ),
    ensures
        processor.filled(regions, VMCS_ENTRIES as nat).vmcs[vmcs_plan(regions, guest_index).field]
            == processor.filled(regions, VMCS_ENTRIES as nat).vmcs[vmcs_plan(
            regions,
            host_index,
        ).field],
{
    law_every_field_is_written(processor, regions, host_index);
    law_copies_agree(
        processor,
        regions,
        guest_index,
        vmcs_plan(regions, host_index).field,
    );
}

/// The guest starts with the state of the host: its segment selectors, its control registers, the
/// base addresses of FS, GS, the task-state segment and both descriptor tables, and its SYSENTER
/// registers.
#[verifier::rlimit(30)]
pub proof fn law_guest_repeats_host(processor: Processor, regions: Regions)
    requires
        processor.wf(),
    ensures
        ({
            let vmcs = processor.filled(regions, VMCS_ENTRIES as nat).vmcs;
            &&& vmcs[guest::ES_SELECTOR] == vmcs[host::ES_SELECTOR]
            &&& vmcs[guest::CS_SELECTOR] == vmcs[host::CS_SELECTOR]
            &&& vmcs[guest::SS_SELECTOR] == vmcs[host::SS_SELECTOR]
            &&& vmcs[guest::DS_SELECTOR] == vmcs[host::DS_SELECTOR]
            &&& vmcs[guest::FS_SELECTOR] == vmcs[host::FS_SELECTOR]
            &&& vmcs[guest::GS_SELECTOR] == vmcs[host::GS_SELECTOR]
            &&& vmcs[guest::TR_SELECTOR] == vmcs[host::TR_SELECTOR]
            &&& vmcs[guest::IA32_SYSENTER_CS] == vmcs[host::IA32_SYSENTER_CS]
            &&& vmcs[guest::IA32_SYSENTER_ESP] == vmcs[host::IA32_SYSENTER_ESP]
            &&& vmcs[guest::IA32_SYSENTER_EIP] == vmcs[host::IA32_SYSENTER_EIP]
            &&& vmcs[guest::CR0] == vmcs[host::CR0]
            &&& vmcs[guest::CR3] == vmcs[host::CR3]
            &&& vmcs[guest::CR4] == vmcs[host::CR4]
            &&& vmcs[guest::FS_BASE] == vmcs[host::FS_BASE]
            &&& vmcs[guest::GS_BASE] == vmcs[host::GS_BASE]
            &&& vmcs[guest::TR_BASE] == vmcs[host::TR_BASE]
            &&& vmcs[guest::GDTR_BASE] == vmcs[host::GDTR_BASE]
            &&& vmcs[guest::IDTR_BASE] == vmcs[host::IDTR_BASE]
        }),
{
    lemma_pair_agrees(processor, regions, 10, 25);  // guest::ES_SELECTOR
    lemma_pair_agrees(processor, regions, 11, 26);  // guest::CS_SELECTOR
    lemma_pair_agrees(processor, regions, 12, 27);  // guest::SS_SELECTOR
    lemma_pair_agrees(processor, regions, 13, 28);  // guest::DS_SELECTOR
    lemma_pair_agrees(processor, regions, 14, 29);  // guest::FS_SELECTOR
    lemma_pair_agrees(processor, regions, 15, 30);  // guest::GS_SELECTOR
    lemma_pair_agrees(processor, regions, 16, 31);  // guest::TR_SELECTOR
    lemma_pair_agrees(processor, regions, 24, 61);  // guest::IA32_SYSENTER_CS
    lemma_pair_agrees(processor, regions, 22, 62);  // guest::IA32_SYSENTER_ESP
    lemma_pair_agrees(processor, regions, 23, 63);  // guest::IA32_SYSENTER_EIP
    lemma_pair_agrees(processor, regions, 7, 64);  // guest::CR0
    lemma_pair_agrees(processor, regions, 8, 65);  // guest::CR3
    lemma_pair_agrees(processor, regions, 9, 66);  // guest::CR4
    lemma_pair_agrees(processor, regions, 17, 71);  // guest::FS_BASE
    lemma_pair_agrees(processor, regions, 18, 72);  // guest::GS_BASE
    lemma_pair_agrees(processor, regions, 19, 74);  // guest::TR_BASE
    lemma_pair_agrees(processor, regions, 20, 75);  // guest::GDTR_BASE
    lemma_pair_agrees(processor, regions, 21, 76);  // guest::IDTR_BASE
}

/// A field whose value does not come from the VMCS gets what the processor held beforehand.
proof fn lemma_field_holds(processor: Processor, regions: Regions, index: usize)
    requires
        index < VMCS_ENTRIES,
        vmcs_plan(regions, index).value !is Field,
        vmcs_plan(regions, index).value !is AccessRights,
    ensures
        processor.filled(regions, VMCS_ENTRIES as nat).vmcs[vmcs_plan(regions, index).field] == fit(
            vmcs_plan(regions, index).field,
            processor.fetched(vmcs_plan(regions, index).value),
        ),
{
    law_every_field_is_written(processor, regions, index);
    law_only_the_vmcs_is_filled(processor, regions, index as nat);
}

/// The rights of a guest segment and its selector agree in the end.
proof fn lemma_rights_agree(
    processor: Processor,
    regions: Regions,
    selector_index: usize,
    rights_index: usize,
)
    requires
        selector_index < VMCS_ENTRIES,
        rights_index < VMCS_ENTRIES,
        vmcs_plan(regions, rights_index).value == Fetch::AccessRights(
            vmcs_plan(regions, selector_index).field,
        ),
    ensures
        processor.filled(regions, VMCS_ENTRIES as nat).vmcs[vmcs_plan(regions, rights_index).field]
            == rights_of(
            processor.filled(regions, VMCS_ENTRIES as nat).vmcs[vmcs_plan(
                regions,
                selector_index,
            ).field],
        ),
{
    law_every_field_is_written(processor, regions, selector_index);
    law_access_rights_agree(
        processor,
        regions,
        rights_index,
        vmcs_plan(regions, selector_index).field,
    );
}

/// What a group of controls is set to on a processor, given what is requested.
pub open spec fn controls_on(processor: Processor, control: VmxControl, requested: u64) -> u64 {
    effective_controls(
        processor.msrs[capability_msr_of(control, processor.msrs[msr::IA32_VMX_BASIC])],
        requested,
    )
}

/// The controls are those that the capability MSRs make of the requested ones: none, but for a
/// 64-bit host after the exit and a 64-bit guest after the entry.
pub proof fn law_controls_are_adjusted(processor: Processor, regions: Regions)
    ensures
        ({
            let vmcs = processor.filled(regions, VMCS_ENTRIES as nat).vmcs;
            &&& vmcs[control::PINBASED_EXEC_CONTROLS] == controls_on(processor, VmxControl::PinBased, 0)
            &&& vmcs[control::PRIMARY_PROCBASED_EXEC_CONTROLS] == controls_on(processor, VmxControl::ProcessorBased, 0)
            &&& vmcs[control::SECONDARY_PROCBASED_EXEC_CONTROLS] == controls_on(processor, VmxControl::ProcessorBased2, 0)
            &&& vmcs[control::VMEXIT_CONTROLS] == controls_on(processor, VmxControl::VmExit, 0x200)
            &&& vmcs[control::VMENTRY_CONTROLS] == controls_on(processor, VmxControl::VmEntry, 0x200)
            &&& vmcs[control::EXCEPTION_BITMAP] == 0
            &&& vmcs[control::VPID] == 0
        }),
{
    let basic = processor.msrs[msr::IA32_VMX_BASIC];
    law_controls_adjust_once(processor.msrs[capability_msr_of(VmxControl::PinBased, basic)], 0);
    lemma_field_holds(processor, regions, 0);  // control::PINBASED_EXEC_CONTROLS
    law_controls_adjust_once(processor.msrs[capability_msr_of(VmxControl::ProcessorBased, basic)], 0);
    lemma_field_holds(processor, regions, 1);  // control::PRIMARY_PROCBASED_EXEC_CONTROLS
    law_controls_adjust_once(processor.msrs[capability_msr_of(VmxControl::ProcessorBased2, basic)], 0);
    lemma_field_holds(processor, regions, 2);  // control::SECONDARY_PROCBASED_EXEC_CONTROLS
    law_controls_adjust_once(processor.msrs[capability_msr_of(VmxControl::VmExit, basic)], 0x200);
    lemma_field_holds(processor, regions, 3);  // control::VMEXIT_CONTROLS
    law_controls_adjust_once(processor.msrs[capability_msr_of(VmxControl::VmEntry, basic)], 0x200);
    lemma_field_holds(processor, regions, 4);  // control::VMENTRY_CONTROLS
    lemma_field_holds(processor, regions, 5);  // control::EXCEPTION_BITMAP
    lemma_field_holds(processor, regions, 6);  // control::VPID
}

/// The host state that the processor goes back to on an exit is the state that it was in.
pub proof fn law_host_state_is_recorded(processor: Processor, regions: Regions)
    ensures
        ({
            let vmcs = processor.filled(regions, VMCS_ENTRIES as nat).vmcs;
            &&& vmcs[host::CR0] == processor.cr0 & CR0_FLAGS
            &&& vmcs[host::CR3] == processor.cr3
            &&& vmcs[host::CR4] == processor.cr4 & CR4_NAMED
            &&& vmcs[host::ES_SELECTOR] == processor.selectors[Segment::Es]
            &&& vmcs[host::CS_SELECTOR] == processor.selectors[Segment::Cs]
            &&& vmcs[host::SS_SELECTOR] == processor.selectors[Segment::Ss]
            &&& vmcs[host::DS_SELECTOR] == processor.selectors[Segment::Ds]
            &&& vmcs[host::FS_SELECTOR] == processor.selectors[Segment::Fs]
            &&& vmcs[host::GS_SELECTOR] == processor.selectors[Segment::Gs]
            &&& vmcs[host::TR_SELECTOR] == processor.selectors[Segment::Tr]
            &&& vmcs[host::FS_BASE] == processor.msrs[msr::IA32_FS_BASE]
            &&& vmcs[host::GS_BASE] == processor.msrs[msr::IA32_GS_BASE]
            &&& vmcs[host::TR_BASE] == segment_base(processor.task_state())
            &&& vmcs[host::GDTR_BASE] == processor.gdt_base
            &&& vmcs[host::IDTR_BASE] == processor.idt_base
            &&& vmcs[host::IA32_SYSENTER_ESP] == processor.msrs[msr::SYSENTER_ESP_MSR]
            &&& vmcs[host::IA32_SYSENTER_EIP] == processor.msrs[msr::SYSENTER_EIP_MSR]
            &&& vmcs[host::IA32_SYSENTER_CS] == processor.msrs[msr::SYSENTER_CS_MSR] % 0x1_0000_0000
        }),
{
    lemma_field_holds(processor, regions, 7);  // host::CR0
    lemma_field_holds(processor, regions, 8);  // host::CR3
    lemma_field_holds(processor, regions, 9);  // host::CR4
    lemma_field_holds(processor, regions, 10);  // host::ES_SELECTOR
    lemma_field_holds(processor, regions, 11);  // host::CS_SELECTOR
    lemma_field_holds(processor, regions, 12);  // host::SS_SELECTOR
    lemma_field_holds(processor, regions, 13);  // host::DS_SELECTOR
    lemma_field_holds(processor, regions, 14);  // host::FS_SELECTOR
    lemma_field_holds(processor, regions, 15);  // host::GS_SELECTOR
    lemma_field_holds(processor, regions, 16);  // host::TR_SELECTOR
    lemma_field_holds(processor, regions, 17);  // host::FS_BASE
    lemma_field_holds(processor, regions, 18);  // host::GS_BASE
    lemma_field_holds(processor, regions, 19);  // host::TR_BASE
    lemma_field_holds(processor, regions, 20);  // host::GDTR_BASE
    lemma_field_holds(processor, regions, 21);  // host::IDTR_BASE
    lemma_field_holds(processor, regions, 22);  // host::IA32_SYSENTER_ESP
    lemma_field_holds(processor, regions, 23);  // host::IA32_SYSENTER_EIP
    lemma_field_holds(processor, regions, 24);  // host::IA32_SYSENTER_CS
}

/// A data segment register of the guest whose selector is null is unusable, and every other one
/// holds a writable data segment.
pub proof fn law_null_segments_are_unusable(processor: Processor, regions: Regions)
    ensures
        ({
            let vmcs = processor.filled(regions, VMCS_ENTRIES as nat).vmcs;
            &&& vmcs[guest::ES_SELECTOR] == 0 ==> vmcs[guest::ES_ACCESS_RIGHTS] == 0x1_0000
            &&& vmcs[guest::ES_SELECTOR] != 0 ==> vmcs[guest::ES_ACCESS_RIGHTS] == 0xc093
            &&& vmcs[guest::DS_SELECTOR] == 0 ==> vmcs[guest::DS_ACCESS_RIGHTS] == 0x1_0000
            &&& vmcs[guest::DS_SELECTOR] != 0 ==> vmcs[guest::DS_ACCESS_RIGHTS] == 0xc093
            &&& vmcs[guest::FS_SELECTOR] == 0 ==> vmcs[guest::FS_ACCESS_RIGHTS] == 0x1_0000
            &&& vmcs[guest::FS_SELECTOR] != 0 ==> vmcs[guest::FS_ACCESS_RIGHTS] == 0xc093
            &&& vmcs[guest::GS_SELECTOR] == 0 ==> vmcs[guest::GS_ACCESS_RIGHTS] == 0x1_0000
            &&& vmcs[guest::GS_SELECTOR] != 0 ==> vmcs[guest::GS_ACCESS_RIGHTS] == 0xc093
        }),
{
    lemma_rights_agree(processor, regions, 25, 50);  // guest::ES_ACCESS_RIGHTS
    lemma_rights_agree(processor, regions, 28, 53);  // guest::DS_ACCESS_RIGHTS
    lemma_rights_agree(processor, regions, 29, 54);  // guest::FS_ACCESS_RIGHTS
    lemma_rights_agree(processor, regions, 30, 55);  // guest::GS_ACCESS_RIGHTS
}

/// The guest starts at its first instruction, on its stack, active and with nothing blocked; no
/// VMCS is linked, and it has no local descriptor table.
pub proof fn law_guest_starts_at_its_code(processor: Processor, regions: Regions)
    ensures
        ({
            let vmcs = processor.filled(regions, VMCS_ENTRIES as nat).vmcs;
            &&& vmcs[guest::RSP] == regions.guest_stack
            &&& vmcs[guest::RIP] == regions.guest_code
            &&& vmcs[guest::RFLAGS] == 2
            &&& vmcs[guest::LINK_PTR_FULL] == u64::MAX
            &&& vmcs[guest::IA32_DEBUGCTL_FULL] == 0
            &&& vmcs[guest::ACTIVITY_STATE] == 0
            &&& vmcs[guest::INTERRUPTIBILITY_STATE] == 0
            &&& vmcs[guest::LDTR_SELECTOR] == 0
            &&& vmcs[guest::LDTR_ACCESS_RIGHTS] == UNUSABLE_SEGMENT
            &&& vmcs[guest::CS_ACCESS_RIGHTS] == CODE_SEGMENT
            &&& vmcs[guest::SS_ACCESS_RIGHTS] == DATA_SEGMENT
            &&& vmcs[guest::TR_ACCESS_RIGHTS] == TASK_STATE_SEGMENT
        }),
{
    lemma_field_holds(processor, regions, 78);  // guest::RSP
    lemma_field_holds(processor, regions, 79);  // guest::RIP
    lemma_field_holds(processor, regions, 77);  // guest::RFLAGS
    lemma_field_holds(processor, regions, 35);  // guest::LINK_PTR_FULL
    lemma_field_holds(processor, regions, 36);  // guest::IA32_DEBUGCTL_FULL
    lemma_field_holds(processor, regions, 59);  // guest::ACTIVITY_STATE
    lemma_field_holds(processor, regions, 58);  // guest::INTERRUPTIBILITY_STATE
    lemma_field_holds(processor, regions, 32);  // guest::LDTR_SELECTOR
    lemma_field_holds(processor, regions, 56);  // guest::LDTR_ACCESS_RIGHTS
    lemma_field_holds(processor, regions, 51);  // guest::CS_ACCESS_RIGHTS
    lemma_field_holds(processor, regions, 52);  // guest::SS_ACCESS_RIGHTS
    lemma_field_holds(processor, regions, 57);  // guest::TR_ACCESS_RIGHTS
}

/// The segments of the guest are flat: their limits are all that 32 bits hold, and the bases of ES,
/// CS, SS and DS are 0.
#[verifier::rlimit(30)]
pub proof fn law_guest_segments_are_flat(processor: Processor, regions: Regions)
    ensures
        ({
            let vmcs = processor.filled(regions, VMCS_ENTRIES as nat).vmcs;
            &&& vmcs[guest::ES_LIMIT] == 0xffff_ffff
            &&& vmcs[guest::CS_LIMIT] == 0xffff_ffff
            &&& vmcs[guest::SS_LIMIT] == 0xffff_ffff
            &&& vmcs[guest::DS_LIMIT] == 0xffff_ffff
            &&& vmcs[guest::FS_LIMIT] == 0xffff_ffff
            &&& vmcs[guest::GS_LIMIT] == 0xffff_ffff
            &&& vmcs[guest::LDTR_LIMIT] == 0xffff_ffff
            &&& vmcs[guest::ES_BASE] == 0
            &&& vmcs[guest::CS_BASE] == 0
            &&& vmcs[guest::SS_BASE] == 0
            &&& vmcs[guest::DS_BASE] == 0
            &&& vmcs[guest::LDTR_BASE] == 0
        }),
{
    lemma_field_holds(processor, regions, 40);  // guest::ES_LIMIT
    lemma_field_holds(processor, regions, 41);  // guest::CS_LIMIT
    lemma_field_holds(processor, regions, 42);  // guest::SS_LIMIT
    lemma_field_holds(processor, regions, 43);  // guest::DS_LIMIT
    lemma_field_holds(processor, regions, 44);  // guest::FS_LIMIT
    lemma_field_holds(processor, regions, 45);  // guest::GS_LIMIT
    lemma_field_holds(processor, regions, 46);  // guest::LDTR_LIMIT
    lemma_field_holds(processor, regions, 67);  // guest::ES_BASE
    lemma_field_holds(processor, regions, 68);  // guest::CS_BASE
    lemma_field_holds(processor, regions, 69);  // guest::SS_BASE
    lemma_field_holds(processor, regions, 70);  // guest::DS_BASE
    lemma_field_holds(processor, regions, 73);  // guest::LDTR_BASE
}

/// A 64-bit field of the guest that is copied from a field which the plan does not write holds what
/// that field held beforehand.
proof fn lemma_unwritten_source_is_copied(
    processor: Processor,
    regions: Regions,
    index: usize,
    source: u32,
)
    requires
        index < VMCS_ENTRIES,
        vmcs_plan(regions, index).value == Fetch::Field(source),
        vmcs_plan(regions, index).field / 0x2000 % 4 == 1,
        forall|j: usize| j < VMCS_ENTRIES ==> #[trigger] vmcs_plan(regions, j).field != source,
    ensures
        vmread_of(
            processor.filled(regions, VMCS_ENTRIES as nat).vmcs,
            vmcs_plan(regions, index).field,
        ) == Ok::<u64, VmFail>(field_value(vmread_of(processor.vmcs, source))),
        vmread_of(processor.filled(regions, VMCS_ENTRIES as nat).vmcs, source) == vmread_of(
            processor.vmcs,
            source,
        ),
{
    law_every_field_is_written(processor, regions, index);
    lemma_field_is_kept(processor, regions, source, 0, index as nat);
    lemma_field_is_kept(processor, regions, source, 0, VMCS_ENTRIES as nat);
}

/// A field of the guest holds what VMREAD gave of a host field before, and 0 where VMREAD failed; and
/// the host field is left alone.
pub open spec fn repeats(
    before: Map<u32, u64>,
    after: Map<u32, u64>,
    guest_field: u32,
    host_field: u32,
) -> bool {
    &&& after.contains_key(guest_field)
    &&& before.contains_key(host_field) ==> after[guest_field] == before[host_field]
    &&& !before.contains_key(host_field) ==> after[guest_field] == 0
    &&& after.contains_key(host_field) == before.contains_key(host_field)
    &&& before.contains_key(host_field) ==> after[host_field] == before[host_field]
}

/// The IA32_PAT, IA32_EFER and IA32_PERF_GLOBAL_CTRL of the guest are those that the VMCS holds for
/// the host, on every processor.
pub proof fn law_guest_has_the_host_msr_fields(processor: Processor, regions: Regions)
    ensures
        ({
            let vmcs = processor.filled(regions, VMCS_ENTRIES as nat).vmcs;
            &&& repeats(processor.vmcs, vmcs, 0x2804, 0x2c00)  // IA32_PAT
            &&& repeats(processor.vmcs, vmcs, 0x2806, 0x2c02)  // IA32_EFER
            &&& repeats(processor.vmcs, vmcs, 0x2808, 0x2c04)  // IA32_PERF_GLOBAL_CTRL
        }),
{
    lemma_unwritten_source_is_copied(processor, regions, 37, 0x2c00);  // IA32_PAT_FULL
    lemma_unwritten_source_is_copied(processor, regions, 38, 0x2c02);  // IA32_EFER_FULL
    lemma_unwritten_source_is_copied(processor, regions, 39, 0x2c04);  // IA32_PERF_GLOBAL_CTRL_FULL
}

} // verus!
