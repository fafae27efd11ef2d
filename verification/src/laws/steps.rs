//! Laws of single steps: what the bring-up asks of the processor, which replies it goes on after,
//! and what it asks next, whatever was replied.
//!
//! Registers, fields and flags stand here by number.

use vstd::prelude::*;
use crate::adjust::VmxControl;
use crate::enable::{EnableVmcs, EnableVmx, VmxSupport};
use crate::init::{Fetch, InitVmcs};
use crate::launch::{LaunchNext, LaunchReport, LaunchVm};
use crate::laws::values::{
    bit, law_capability_msr_follows_bit_55, law_feature_control_locks_on_bit_0,
    law_launch_outcome_follows_bits_6_and_0,
};
use crate::machine::{Action, Descriptor64, Regions, Register, Reply, Segment, VmFail};
use crate::session::{Session, Stage};

verus! {

/// A VMX instruction succeeded.
pub open spec fn succeeded(reply: Reply) -> bool {
    reply is Instruction && reply->Instruction_0 is Ok
}

/// What is written of a field that was read: its value, and 0 where it could not be read.
pub open spec fn read_or_zero(result: Result<u64, VmFail>) -> u64 {
    if result is Ok {
        result->Ok_0
    } else {
        0
    }
}

/// The bring-up asks for a register, and goes on after a value.
pub open spec fn reads(session: Session, register: Register, reply: Reply) -> bool {
    &&& session.action_spec() == Some(Action::Read(register))
    &&& session.accepts_spec(reply) <==> reply is Value
}

/// The bring-up asks for a field, and goes on after any result.
pub open spec fn reads_field(session: Session, field: u32, reply: Reply) -> bool {
    &&& session.action_spec() == Some(Action::VmRead(field))
    &&& session.accepts_spec(reply) <==> reply is Field
}

/// The bring-up asks for an action that cannot fail.
pub open spec fn does(session: Session, action: Action, reply: Reply) -> bool {
    &&& session.action_spec() == Some(action)
    &&& session.accepts_spec(reply) <==> reply is Done
}

/// The bring-up asks for a VMX instruction, and goes on where it succeeds and nowhere else.
pub open spec fn executes(session: Session, action: Action, reply: Reply) -> bool {
    &&& session.action_spec() == Some(action)
    &&& session.accepts_spec(reply) <==> succeeded(reply)
}

/// Entering VMX operation, from the first action to the last, whatever the processor answers.
/// CR4 gets bit 13; MSR 0x3a, where it is even, gets bits 0 and 2; CR0 is adjusted to MSRs 0x486
/// and 0x487; and VMXON runs on the physical address of its region, with the lower half of MSR
/// 0x480 as revision identifier. Each reply has to answer its action, and VMXON has to succeed.
/// Then the VMCS is made current.
#[verifier::rlimit(30)]
pub proof fn law_vmx_operation_is_entered_step_by_step(
    regions: Regions,
    cr4: u64,
    feature_control: u64,
    fixed0: u64,
    fixed1: u64,
    cr0: u64,
    vmx_basic: u64,
    reply: Reply,
)
    requires
        regions.vmxon >= 0xffff_ffff_8000_0000,
    ensures
        ({
            let s0 = Session::begin_spec(regions, VmxSupport::Supported);
            let s1 = s0.step_spec(Reply::Value(cr4));
            let s2 = s1.step_spec(Reply::Done);
            let s3 = s2.step_spec(Reply::Value(feature_control));
            let s4 = if feature_control % 2 == 0 {
                s3.step_spec(Reply::Done)
            } else {
                s3
            };
            let s5 = s4.step_spec(Reply::Value(fixed0));
            let s6 = s5.step_spec(Reply::Value(fixed1));
            let s7 = s6.step_spec(Reply::Value(cr0));
            let s8 = s7.step_spec(Reply::Done);
            let s9 = s8.step_spec(Reply::Value(vmx_basic));
            &&& reads(s0, Register::Cr4Flags, reply)
            &&& does(s1, Action::WriteCr4Flags(cr4 | 0x2000), reply)
            &&& reads(s2, Register::Msr(0x3a), reply)
            &&& feature_control % 2 == 0 ==> does(
                s3,
                Action::WriteMsr(0x3a, feature_control | 0x5),
                reply,
            )
            &&& reads(s4, Register::Msr(0x486), reply)
            &&& reads(s5, Register::Msr(0x487), reply)
            &&& reads(s6, Register::Cr0, reply)
            &&& does(s7, Action::WriteCr0(((cr0 & fixed1) | fixed0) & 0xe005_003f), reply)
            &&& reads(s8, Register::Msr(0x480), reply)
            &&& executes(
                s9,
                Action::Vmxon {
                    address: (regions.vmxon - 0xffff_ffff_8000_0000) as u64,
                    revision: (vmx_basic % 0x1_0000_0000) as u32,
                },
                reply,
            )
            &&& succeeded(reply) ==> s9.step_spec(reply) == (Session {
                stage: Stage::EnableVmcs(EnableVmcs::ReadRevision),
                ..s0
            })
        }),
{
    law_feature_control_locks_on_bit_0(feature_control);
    assert(feature_control | 0x4 | 0x1 == feature_control | 0x5) by (bit_vector);
}

/// Making the VMCS current, from the first action to the last, whatever the processor answers to
/// each.
pub proof fn law_vmcs_becomes_current_step_by_step(
    regions: Regions,
    support: VmxSupport,
    vmx_basic: u64,
    first: Reply,
    reply: Reply,
)
    requires
        regions.vmcs >= 0xffff_ffff_8000_0000,
        succeeded(first),
    ensures
        ({
            let address = (regions.vmcs - 0xffff_ffff_8000_0000) as u64;
            let s0 = Session {
                regions,
                support,
                stage: Stage::EnableVmcs(EnableVmcs::ReadRevision),
            };
            let s1 = s0.step_spec(Reply::Value(vmx_basic));
            let s2 = s1.step_spec(first);
            &&& reads(s0, Register::Msr(0x480), reply)
            &&& executes(
                s1,
                Action::Vmclear { address, revision: (vmx_basic % 0x1_0000_0000) as u32 },
                reply,
            )
            &&& executes(s2, Action::Vmptrld { address }, reply)
            &&& succeeded(reply) ==> s2.step_spec(reply) == position(regions, support, 0)
        }),
{
}

/// Whatever it was given, a VMX instruction that failed, valid or not, is the end of the bring-up;
/// so is a reply that answers another action.
pub proof fn law_failed_instructions_are_refused(revision: u32, value: u64, reply: Reply)
    ensures
        (EnableVmx::Vmxon { revision }).accepts_spec(reply) <==> succeeded(reply),
        (EnableVmcs::Vmclear { revision }).accepts_spec(reply) <==> succeeded(reply),
        EnableVmcs::Vmptrld.accepts_spec(reply) <==> succeeded(reply),
        Fetch::Ready(value).accepts_spec(reply) <==> succeeded(reply),
{
}

/// What has been worked out is written as it is, and where one part of entering VMX operation is
/// done the next one follows, whatever was worked out.
pub proof fn law_values_are_written_as_they_are(
    regions: Regions,
    value: u64,
    revision: u32,
    reply: Reply,
)
    requires
        regions.vmxon >= 0xffff_ffff_8000_0000,
    ensures
        ({
            let cr4 = EnableVmx::WriteCr4 { cr4: value };
            let feature_control = EnableVmx::WriteFeatureControl { feature_control: value };
            let cr0 = EnableVmx::WriteCr0 { cr0: value };
            let vmxon = EnableVmx::Vmxon { revision };
            &&& cr4.action_spec(regions) == Action::WriteCr4Flags(value)
            &&& cr4.accepts_spec(reply) <==> reply is Done
            &&& cr4.next_spec(reply) == Some(EnableVmx::ReadFeatureControl)
            &&& feature_control.action_spec(regions) == Action::WriteMsr(0x3a, value)
            &&& feature_control.accepts_spec(reply) <==> reply is Done
            &&& feature_control.next_spec(reply) == Some(EnableVmx::ReadFixed0)
            &&& cr0.action_spec(regions) == Action::WriteCr0(value)
            &&& cr0.accepts_spec(reply) <==> reply is Done
            &&& cr0.next_spec(reply) == Some(EnableVmx::ReadRevision)
            &&& vmxon.action_spec(regions) == (Action::Vmxon {
                address: (regions.vmxon - 0xffff_ffff_8000_0000) as u64,
                revision,
            })
            &&& vmxon.next_spec(reply) is None
        }),
{
}

/// The bring-up as a whole asks for, goes on after and does what the part of it does that is under
/// way, and hands over to the next part when that one is done.
pub proof fn law_parts_follow_each_other(
    regions: Regions,
    support: VmxSupport,
    stage: Stage,
    reply: Reply,
)
    ensures
        ({
            let session = Session { regions, support, stage };
            let after = session.step_spec(reply).stage;
            match stage {
                Stage::EnableVmx(enable) => {
                    &&& session.action_spec() == Some(enable.action_spec(regions))
                    &&& session.accepts_spec(reply) <==> enable.accepts_spec(reply)
                    &&& enable.next_spec(reply) matches Some(next) ==> after == Stage::EnableVmx(
                        next,
                    )
                    &&& enable.next_spec(reply) is None ==> after == Stage::EnableVmcs(
                        EnableVmcs::ReadRevision,
                    )
                },
                Stage::EnableVmcs(enable) => {
                    &&& session.action_spec() == Some(enable.action_spec(regions))
                    &&& session.accepts_spec(reply) <==> enable.accepts_spec(reply)
                    &&& enable.next_spec(reply) matches Some(next) ==> after == Stage::EnableVmcs(
                        next,
                    )
                    &&& enable.next_spec(reply) is None ==> after == position(
                        regions,
                        support,
                        0,
                    ).stage
                },
                Stage::InitVmcs(init) => {
                    &&& session.action_spec() == Some(init.action_spec(regions))
                    &&& session.accepts_spec(reply) <==> init.fetch.accepts_spec(reply)
                    &&& init.next_spec(regions, reply) matches Some(next) ==> after
                        == Stage::InitVmcs(next)
                    &&& init.next_spec(regions, reply) is None ==> after == Stage::Launch(
                        LaunchVm::RunGuest,
                    )
                    &&& init.fetch.next_spec(reply) matches Some(fetch) ==> after
                        == Stage::InitVmcs(InitVmcs { index: init.index, fetch })
                    &&& init.index < 80 && init.fetch.next_spec(reply) is None ==> after
                        == position(regions, support, init.index + 1).stage
                },
                Stage::Launch(launch) => {
                    &&& session.action_spec() == Some(launch.action_spec())
                    &&& session.accepts_spec(reply) <==> launch.accepts_spec(reply)
                    &&& launch.next_spec(reply) matches LaunchNext::Continue(next) ==> after
                        == Stage::Launch(next)
                    &&& launch.next_spec(reply) matches LaunchNext::Report(report) ==> after
                        == Stage::Vmxoff(report)
                },
                Stage::Vmxoff(report) => {
                    &&& session.action_spec() == Some(Action::Vmxoff)
                    &&& session.accepts_spec(reply) <==> reply is Done
                    &&& after == Stage::Finished(report)
                },
                Stage::Finished(_) => {
                    &&& session.action_spec() is None
                    &&& !session.accepts_spec(reply)
                },
            }
        }),
{
}

/// How a bring-up begins, for each answer of CPUID: with CR4 where there is VMX, and else with the
/// revision identifier for the VMCS.
pub proof fn law_begin_depends_on_support(regions: Regions, support: VmxSupport, reply: Reply)
    ensures
        ({
            let session = Session::begin_spec(regions, support);
            &&& session.regions == regions
            &&& session.support == support
            &&& support == VmxSupport::Supported ==> reads(session, Register::Cr4Flags, reply)
            &&& support != VmxSupport::Supported ==> reads(session, Register::Msr(0x480), reply)
            &&& support != VmxSupport::Supported ==> session.stage == Stage::EnableVmcs(
                EnableVmcs::ReadRevision,
            )
        }),
{
}

/// No step changes the regions, or what is known of VMX.
pub proof fn law_steps_keep_regions(session: Session, reply: Reply)
    ensures
        session.step_spec(reply).regions == session.regions,
        session.step_spec(reply).support == session.support,
{
}

/// The bring-up at the beginning of a position of the plan of the VMCS, and behind the last one.
pub open spec fn position(regions: Regions, support: VmxSupport, index: int) -> Session {
    Session {
        regions,
        support,
        stage: if index < 80 {
            Stage::InitVmcs(InitVmcs::at(regions, index as usize))
        } else {
            Stage::Launch(LaunchVm::RunGuest)
        },
    }
}

/// The bring-up writes a value to a field, and goes on to the next position where that succeeds.
pub open spec fn writes(
    session: Session,
    index: int,
    field: u32,
    value: u64,
    reply: Reply,
) -> bool {
    &&& executes(session, Action::VmWrite(field, value), reply)
    &&& succeeded(reply) ==> session.step_spec(reply) == position(
        session.regions,
        session.support,
        index + 1,
    )
}

/// The bring-up writes a value at a position without reading anything.
pub open spec fn writes_at(
    regions: Regions,
    support: VmxSupport,
    index: int,
    field: u32,
    value: u64,
    reply: Reply,
) -> bool {
    writes(position(regions, support, index), index, field, value, reply)
}

/// The bring-up reads a register at a position and writes what it read.
pub open spec fn records(
    regions: Regions,
    support: VmxSupport,
    index: int,
    field: u32,
    register: Register,
    value: u64,
    reply: Reply,
) -> bool {
    let session = position(regions, support, index);
    &&& reads(session, register, reply)
    &&& writes(session.step_spec(Reply::Value(value)), index, field, value, reply)
}

/// The bring-up reads a selector at a position and writes what it read.
pub open spec fn records_selector(
    regions: Regions,
    support: VmxSupport,
    index: int,
    field: u32,
    segment: Segment,
    selector: u16,
    reply: Reply,
) -> bool {
    let session = position(regions, support, index);
    &&& session.action_spec() == Some(Action::ReadSelector(segment))
    &&& session.accepts_spec(reply) <==> reply is Selector
    &&& writes(
        session.step_spec(Reply::Selector(selector)),
        index,
        field,
        selector as u64,
        reply,
    )
}

/// The bring-up reads one field at a position and writes what it read to another.
pub open spec fn copies(
    regions: Regions,
    support: VmxSupport,
    index: int,
    field: u32,
    source: u32,
    result: Result<u64, VmFail>,
    reply: Reply,
) -> bool {
    let session = position(regions, support, index);
    &&& reads_field(session, source, reply)
    &&& writes(
        session.step_spec(Reply::Field(result)),
        index,
        field,
        read_or_zero(result),
        reply,
    )
}

/// The bring-up reads a selector field at a position and writes the rights that go with it: 0x10000
/// for a null selector, and 0xc093 for every other.
pub open spec fn gives_rights(
    regions: Regions,
    support: VmxSupport,
    index: int,
    field: u32,
    selector: u32,
    result: Result<u64, VmFail>,
    reply: Reply,
) -> bool {
    let session = position(regions, support, index);
    &&& reads_field(session, selector, reply)
    &&& writes(
        session.step_spec(Reply::Field(result)),
        index,
        field,
        if read_or_zero(result) == 0 {
            0x1_0000
        } else {
            0xc093
        },
        reply,
    )
}

/// The bring-up reads MSR 0x480 and the capability MSR that its bit 55 chooses, and writes the
/// requested controls with those added that the lower half requires, and without those that the
/// upper half does not allow.
pub open spec fn sets_controls(
    regions: Regions,
    support: VmxSupport,
    index: int,
    field: u32,
    plain_msr: u32,
    true_msr: u32,
    requested: u64,
    vmx_basic: u64,
    capabilities: u64,
    reply: Reply,
) -> bool {
    let session = position(regions, support, index);
    let second = session.step_spec(Reply::Value(vmx_basic));
    &&& reads(session, Register::Msr(0x480), reply)
    &&& reads(
        second,
        Register::Msr(
            if bit(vmx_basic, 55) {
                true_msr
            } else {
                plain_msr
            },
        ),
        reply,
    )
    &&& writes(
        second.step_spec(Reply::Value(capabilities)),
        index,
        field,
        (requested | (capabilities & 0xffff_ffff)) & (capabilities >> 32),
        reply,
    )
}

/// A value is fetched by one read, and then written to the field that it is for: a register, a
/// selector, or another field, which counts as 0 where it cannot be read.
pub proof fn law_values_are_fetched_by_one_read(
    field: u32,
    register: Register,
    segment: Segment,
    source: u32,
    value: u64,
    selector: u16,
    result: Result<u64, VmFail>,
    reply: Reply,
)
    ensures
        Fetch::Ready(value).action_spec(field) == Action::VmWrite(field, value),
        Fetch::Ready(value).next_spec(reply) is None,
        Fetch::Register(register).action_spec(field) == Action::Read(register),
        Fetch::Register(register).accepts_spec(reply) <==> reply is Value,
        Fetch::Register(register).next_spec(Reply::Value(value)) == Some(Fetch::Ready(value)),
        Fetch::Selector(segment).action_spec(field) == Action::ReadSelector(segment),
        Fetch::Selector(segment).accepts_spec(reply) <==> reply is Selector,
        Fetch::Selector(segment).next_spec(Reply::Selector(selector)) == Some(
            Fetch::Ready(selector as u64),
        ),
        Fetch::Field(source).action_spec(field) == Action::VmRead(source),
        Fetch::Field(source).accepts_spec(reply) <==> reply is Field,
        Fetch::Field(source).next_spec(Reply::Field(result)) == Some(
            Fetch::Ready(read_or_zero(result)),
        ),
        Fetch::AccessRights(source).action_spec(field) == Action::VmRead(source),
        Fetch::AccessRights(source).accepts_spec(reply) <==> reply is Field,
        Fetch::AccessRights(source).next_spec(Reply::Field(result)) == Some(
            Fetch::Ready(
                if read_or_zero(result) == 0 {
                    0x1_0000
                } else {
                    0xc093
                },
            ),
        ),
{
}

/// A control is fetched by two reads, whatever is requested: MSR 0x480 chooses the capability MSR,
/// and that MSR decides each of the 32 controls. The base of the task-state segment is fetched by
/// three.
pub proof fn law_values_are_fetched_by_several_reads(
    field: u32,
    control: VmxControl,
    cap_msr: u32,
    requested: u32,
    vmx_basic: u64,
    capabilities: u64,
    gdt_base: u64,
    tr: u16,
    descriptor: Descriptor64,
    reply: Reply,
)
    ensures
        ({
            let basic = Fetch::ControlBasic { control, requested };
            let chosen = match control {
                VmxControl::PinBased => if bit(vmx_basic, 55) { 0x48du32 } else { 0x481u32 },
                VmxControl::ProcessorBased => if bit(vmx_basic, 55) { 0x48eu32 } else { 0x482u32 },
                VmxControl::ProcessorBased2 => 0x48bu32,
                VmxControl::VmExit => if bit(vmx_basic, 55) { 0x48fu32 } else { 0x483u32 },
                VmxControl::VmEntry => if bit(vmx_basic, 55) { 0x490u32 } else { 0x484u32 },
            };
            let capability = Fetch::ControlCapability { cap_msr, requested };
            &&& basic.action_spec(field) == Action::Read(Register::Msr(0x480))
            &&& basic.accepts_spec(reply) <==> reply is Value
            &&& basic.next_spec(Reply::Value(vmx_basic)) == Some(
                Fetch::ControlCapability { cap_msr: chosen, requested },
            )
            &&& capability.action_spec(field) == Action::Read(Register::Msr(cap_msr))
            &&& capability.accepts_spec(reply) <==> reply is Value
            &&& capability.next_spec(Reply::Value(capabilities)) == Some(
                Fetch::Ready(
                    (requested as u64 | (capabilities & 0xffff_ffff)) & (capabilities >> 32),
                ),
            )
        }),
        ({
            let selector = Fetch::TrSelector { gdt_base };
            let entry = Fetch::TrDescriptor { address: gdt_base };
            &&& Fetch::TrGdtBase.action_spec(field) == Action::Read(Register::GdtBase)
            &&& Fetch::TrGdtBase.accepts_spec(reply) <==> reply is Value
            &&& Fetch::TrGdtBase.next_spec(Reply::Value(gdt_base)) == Some(selector)
            &&& selector.action_spec(field) == Action::ReadSelector(Segment::Tr)
            &&& selector.accepts_spec(reply) <==> (reply is Selector && gdt_base
                + reply->Selector_0 <= 0xffff_ffff_ffff_ffff)
            &&& gdt_base + tr <= 0xffff_ffff_ffff_ffff ==> selector.next_spec(Reply::Selector(tr))
                == Some(Fetch::TrDescriptor { address: (gdt_base + tr) as u64 })
            &&& entry.action_spec(field) == Action::ReadDescriptor(gdt_base)
            &&& entry.accepts_spec(reply) <==> reply is Descriptor
            &&& entry.next_spec(Reply::Descriptor(descriptor)) == Some(
                Fetch::Ready(
                    (descriptor.base0 + descriptor.base1 * 0x1_0000 + descriptor.base2 * 0x100_0000
                        + descriptor.base3 * 0x1_0000_0000) as u64,
                ),
            )
        }),
{
    law_capability_msr_follows_bit_55(vmx_basic);
}

/// The five groups of controls.
#[verifier::rlimit(30)]
pub proof fn law_controls_step_by_step(
    regions: Regions,
    support: VmxSupport,
    vmx_basic: u64,
    capabilities: u64,
    reply: Reply,
)
    ensures
        sets_controls(
            regions,
            support,
            0,
            0x4000,
            0x481,
            0x48d,
            0,
            vmx_basic,
            capabilities,
            reply,
        ),
        sets_controls(
            regions,
            support,
            1,
            0x4002,
            0x482,
            0x48e,
            0,
            vmx_basic,
            capabilities,
            reply,
        ),
        sets_controls(
            regions,
            support,
            2,
            0x401e,
            0x48b,
            0x48b,
            0,
            vmx_basic,
            capabilities,
            reply,
        ),
        sets_controls(
            regions,
            support,
            3,
            0x400c,
            0x483,
            0x48f,
            0x200,
            vmx_basic,
            capabilities,
            reply,
        ),
        sets_controls(
            regions,
            support,
            4,
            0x4012,
            0x484,
            0x490,
            0x200,
            vmx_basic,
            capabilities,
            reply,
        ),
{
    law_capability_msr_follows_bit_55(vmx_basic);
}

/// The host fields that are read off registers.
#[verifier::rlimit(30)]
pub proof fn law_host_registers_step_by_step(
    regions: Regions,
    support: VmxSupport,
    value: u64,
    reply: Reply,
)
    ensures
        records(regions, support, 7, 0x6c00, Register::Cr0, value, reply),  // CR0
        records(regions, support, 8, 0x6c02, Register::Cr3, value, reply),  // CR3
        records(regions, support, 9, 0x6c04, Register::Cr4, value, reply),  // CR4
        records(regions, support, 17, 0x6c06, Register::Msr(0xc000_0100), value, reply),  // FS_BASE
        records(regions, support, 18, 0x6c08, Register::Msr(0xc000_0101), value, reply),  // GS_BASE
        records(regions, support, 20, 0x6c0c, Register::GdtBase, value, reply),  // GDTR_BASE
        records(regions, support, 21, 0x6c0e, Register::IdtBase, value, reply),  // IDTR_BASE
        records(regions, support, 22, 0x6c10, Register::Msr(0x175), value, reply),  // SYSENTER_ESP
        records(regions, support, 23, 0x6c12, Register::Msr(0x176), value, reply),  // SYSENTER_EIP
        records(regions, support, 24, 0x4c00, Register::Msr(0x174), value, reply),  // SYSENTER_CS
{
}

/// The host selectors.
pub proof fn law_host_selectors_step_by_step(
    regions: Regions,
    support: VmxSupport,
    selector: u16,
    reply: Reply,
)
    ensures
        records_selector(regions, support, 10, 0x0c00, Segment::Es, selector, reply),  // ES
        records_selector(regions, support, 11, 0x0c02, Segment::Cs, selector, reply),  // CS
        records_selector(regions, support, 12, 0x0c04, Segment::Ss, selector, reply),  // SS
        records_selector(regions, support, 13, 0x0c06, Segment::Ds, selector, reply),  // DS
        records_selector(regions, support, 14, 0x0c08, Segment::Fs, selector, reply),  // FS
        records_selector(regions, support, 15, 0x0c0a, Segment::Gs, selector, reply),  // GS
        records_selector(regions, support, 16, 0x0c0c, Segment::Tr, selector, reply),  // TR
{
}

/// The host base of the task-state segment: the base of the GDT is read, then the task register,
/// then the descriptor at the sum of both, which has to be an address; and the base that the
/// descriptor holds is written.
pub proof fn law_task_state_base_step_by_step(
    regions: Regions,
    support: VmxSupport,
    gdt_base: u64,
    tr: u16,
    descriptor: Descriptor64,
    reply: Reply,
)
    ensures
        ({
            let s0 = position(regions, support, 19);
            let s1 = s0.step_spec(Reply::Value(gdt_base));
            &&& reads(s0, Register::GdtBase, reply)
            &&& s1.action_spec() == Some(Action::ReadSelector(Segment::Tr))
            &&& s1.accepts_spec(reply) <==> (reply is Selector && gdt_base + reply->Selector_0
                <= 0xffff_ffff_ffff_ffff)
        }),
        gdt_base + tr <= 0xffff_ffff_ffff_ffff ==> ({
            let s1 = position(regions, support, 19).step_spec(Reply::Value(gdt_base));
            let s2 = s1.step_spec(Reply::Selector(tr));
            &&& s2.action_spec() == Some(Action::ReadDescriptor((gdt_base + tr) as u64))
            &&& s2.accepts_spec(reply) <==> reply is Descriptor
            &&& writes(
                s2.step_spec(Reply::Descriptor(descriptor)),
                19,
                0x6c0a,
                (descriptor.base0 + descriptor.base1 * 0x1_0000 + descriptor.base2 * 0x100_0000
                    + descriptor.base3 * 0x1_0000_0000) as u64,
                reply,
            )
        }),
{
}

/// The guest fields that are copied from the host field of the same name: what VMREAD gives of that
/// field is written, and 0 where VMREAD fails.
#[verifier::rlimit(30)]
pub proof fn law_guest_copies_step_by_step(
    regions: Regions,
    support: VmxSupport,
    result: Result<u64, VmFail>,
    reply: Reply,
)
    ensures
        copies(regions, support, 25, 0x0800, 0x0c00, result, reply),  // ES
        copies(regions, support, 26, 0x0802, 0x0c02, result, reply),  // CS
        copies(regions, support, 27, 0x0804, 0x0c04, result, reply),  // SS
        copies(regions, support, 28, 0x0806, 0x0c06, result, reply),  // DS
        copies(regions, support, 29, 0x0808, 0x0c08, result, reply),  // FS
        copies(regions, support, 30, 0x080a, 0x0c0a, result, reply),  // GS
        copies(regions, support, 31, 0x080e, 0x0c0c, result, reply),  // TR
        copies(regions, support, 37, 0x2804, 0x2c00, result, reply),  // PAT
        copies(regions, support, 38, 0x2806, 0x2c02, result, reply),  // EFER
        copies(regions, support, 39, 0x2808, 0x2c04, result, reply),  // PERF_GLOBAL_CTRL
        copies(regions, support, 61, 0x482a, 0x4c00, result, reply),  // SYSENTER_CS
        copies(regions, support, 62, 0x6824, 0x6c10, result, reply),  // SYSENTER_ESP
        copies(regions, support, 63, 0x6826, 0x6c12, result, reply),  // SYSENTER_EIP
        copies(regions, support, 64, 0x6800, 0x6c00, result, reply),  // CR0
        copies(regions, support, 65, 0x6802, 0x6c02, result, reply),  // CR3
        copies(regions, support, 66, 0x6804, 0x6c04, result, reply),  // CR4
        copies(regions, support, 71, 0x680e, 0x6c06, result, reply),  // FS_BASE
        copies(regions, support, 72, 0x6810, 0x6c08, result, reply),  // GS_BASE
        copies(regions, support, 74, 0x6814, 0x6c0a, result, reply),  // TR_BASE
        copies(regions, support, 75, 0x6816, 0x6c0c, result, reply),  // GDTR_BASE
        copies(regions, support, 76, 0x6818, 0x6c0e, result, reply),  // IDTR_BASE
{
}

/// The access rights of the guest's ES, DS, FS and GS.
pub proof fn law_access_rights_step_by_step(
    regions: Regions,
    support: VmxSupport,
    result: Result<u64, VmFail>,
    reply: Reply,
)
    ensures
        gives_rights(regions, support, 50, 0x4814, 0x0800, result, reply),  // ES_ACCESS_RIGHTS
        gives_rights(regions, support, 53, 0x481a, 0x0806, result, reply),  // DS_ACCESS_RIGHTS
        gives_rights(regions, support, 54, 0x481c, 0x0808, result, reply),  // FS_ACCESS_RIGHTS
        gives_rights(regions, support, 55, 0x481e, 0x080a, result, reply),  // GS_ACCESS_RIGHTS
{
}

/// The fields that get the same value on every processor, and where the guest starts.
#[verifier::rlimit(30)]
pub proof fn law_fixed_fields_step_by_step(regions: Regions, support: VmxSupport, reply: Reply)
    ensures
        writes_at(regions, support, 5, 0x4004, 0, reply),  // EXCEPTION_BITMAP
        writes_at(regions, support, 6, 0x0000, 0, reply),  // VPID
        writes_at(regions, support, 32, 0x080c, 0, reply),  // LDTR
        writes_at(regions, support, 33, 0x0810, 0, reply),  // INTERRUPT_STATUS
        writes_at(regions, support, 34, 0x0812, 0, reply),  // PML_INDEX
        writes_at(regions, support, 35, 0x2800, 0xffff_ffff_ffff_ffff, reply),  // LINK_PTR
        writes_at(regions, support, 36, 0x2802, 0, reply),  // DEBUGCTL
        writes_at(regions, support, 40, 0x4800, 0xffff_ffff_ffff_ffff, reply),  // ES_LIMIT
        writes_at(regions, support, 41, 0x4802, 0xffff_ffff_ffff_ffff, reply),  // CS_LIMIT
        writes_at(regions, support, 42, 0x4804, 0xffff_ffff_ffff_ffff, reply),  // SS_LIMIT
        writes_at(regions, support, 43, 0x4806, 0xffff_ffff_ffff_ffff, reply),  // DS_LIMIT
        writes_at(regions, support, 44, 0x4808, 0xffff_ffff_ffff_ffff, reply),  // FS_LIMIT
        writes_at(regions, support, 45, 0x480a, 0xffff_ffff_ffff_ffff, reply),  // GS_LIMIT
        writes_at(regions, support, 46, 0x480c, 0xffff_ffff_ffff_ffff, reply),  // LDTR_LIMIT
        writes_at(regions, support, 47, 0x480e, 0x67, reply),  // TR_LIMIT
        writes_at(regions, support, 48, 0x4810, 0xffff, reply),  // GDTR_LIMIT
        writes_at(regions, support, 49, 0x4812, 0xffff, reply),  // IDTR_LIMIT
        writes_at(regions, support, 51, 0x4816, 0xa09b, reply),  // CS_ACCESS_RIGHTS
        writes_at(regions, support, 52, 0x4818, 0xc093, reply),  // SS_ACCESS_RIGHTS
        writes_at(regions, support, 56, 0x4820, 0x1_0000, reply),  // LDTR_ACCESS_RIGHTS
        writes_at(regions, support, 57, 0x4822, 0x8b, reply),  // TR_ACCESS_RIGHTS
        writes_at(regions, support, 58, 0x4824, 0, reply),  // INTERRUPTIBILITY_STATE
        writes_at(regions, support, 59, 0x4826, 0, reply),  // ACTIVITY_STATE
        writes_at(regions, support, 60, 0x482e, 0, reply),  // VMX_PREEMPTION_TIMER_VALUE
        writes_at(regions, support, 67, 0x6806, 0, reply),  // ES_BASE
        writes_at(regions, support, 68, 0x6808, 0, reply),  // CS_BASE
        writes_at(regions, support, 69, 0x680a, 0, reply),  // SS_BASE
        writes_at(regions, support, 70, 0x680c, 0, reply),  // DS_BASE
        writes_at(regions, support, 73, 0x6812, 0, reply),  // LDTR_BASE
        writes_at(regions, support, 77, 0x6820, 2, reply),  // RFLAGS
        writes_at(regions, support, 78, 0x681c, regions.guest_stack, reply),  // RSP
        writes_at(regions, support, 79, 0x681e, regions.guest_code, reply),  // RIP
{
}

/// The launch, from the run of the guest to the end, whatever the flags register and VMREAD say.
/// With bit 6 of the flags set the VM-instruction error is read and reported; with bit 6 clear and
/// bit 0 set an invalid failure is reported; with both clear the low 16 bits of the exit reason are
/// read and reported. VMXOFF follows in every case, and nothing after it.
#[verifier::rlimit(30)]
pub proof fn law_launch_step_by_step(
    regions: Regions,
    support: VmxSupport,
    flags: u64,
    result: Result<u64, VmFail>,
    reply: Reply,
)
    ensures
        ({
            let s0 = position(regions, support, 80);
            let s1 = s0.step_spec(Reply::Value(flags));
            let s2 = if bit(flags, 6) || !bit(flags, 0) {
                s1.step_spec(Reply::Field(result))
            } else {
                s1
            };
            let s3 = s2.step_spec(Reply::Done);
            let report = if bit(flags, 6) {
                LaunchReport::FailValid { error: read_or_zero(result) }
            } else if bit(flags, 0) {
                LaunchReport::FailInvalid
            } else {
                LaunchReport::Exited { reason: (read_or_zero(result) % 0x1_0000) as u32 }
            };
            &&& s0.action_spec() == Some(Action::RunGuest)
            &&& s0.accepts_spec(reply) <==> reply is Value
            &&& bit(flags, 6) ==> reads_field(s1, 0x4400, reply)
            &&& !bit(flags, 6) && !bit(flags, 0) ==> reads_field(s1, 0x4402, reply)
            &&& s0.report_spec() is None
            &&& bit(flags, 6) || !bit(flags, 0) ==> s1.report_spec() is None
            &&& does(s2, Action::Vmxoff, reply)
            &&& s2.report_spec() == Some(report)
            &&& s3.report_spec() == Some(report)
            &&& s3.action_spec() is None
            &&& !s3.accepts_spec(reply)
        }),
{
    law_launch_outcome_follows_bits_6_and_0(flags);
}

/// Nothing is reported before the launch is over, and from then on there is nothing to do but
/// VMXOFF.
pub proof fn law_report_comes_with_vmxoff(session: Session)
    ensures
        session.report_spec() is Some <==> (session.action_spec() == Some(Action::Vmxoff)
            || session.action_spec() is None),
{
}

} // verus!
