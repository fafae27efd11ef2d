//! Laws of whole runs of the bring-up.

use vstd::prelude::*;
use crate::adjust::{
    cr0_for_vmx, feature_control_enabled, feature_control_locked,
    IA32_FEATURE_CONTROL_ENABLE_VMX_OUTSIDE_SMX_FLAG,
};
use crate::arch::{CR0_FLAGS, CR4_VMXE};
use crate::enable::{EnableVmcs, EnableVmx, VmxSupport};
use crate::init::{vmcs_plan, Fetch, InitVmcs, VMCS_ENTRIES};
use crate::launch::{vm_outcome, LaunchReport, LaunchVm, VmOutcome};
use crate::laws::fields::{
    law_guest_repeats_host, law_host_state_is_recorded, law_only_the_vmcs_is_filled,
};
use crate::laws::values::{law_cr0_meets_fixed_bits, law_feature_control_enables_vmx};
use crate::machine::{field_value, Action, Regions, Register, Reply, Segment, KERNEL_CODE_BASE};
use crate::model::{vmread_of, Processor, Run, CR4_FLAGS};
use crate::msr;
use crate::session::{Session, Stage};
use crate::vmcs::{guest, host, ro};

verus! {

/// Some actions and then some more are so many actions.
proof fn lemma_ticks_add(run: Run, first: nat, second: nat)
    ensures
        run.ticks(first + second) == run.ticks(first).ticks(second),
        run.can_ticks(first + second) == (run.can_ticks(first) && run.ticks(first).can_ticks(
            second,
        )),
    decreases first,
{
    if first > 0 {
        lemma_ticks_add(run.tick(), (first - 1) as nat, second);
        assert((first + second - 1) as nat == (first - 1) as nat + second);
    }
}

/// What a run reaches from what it reaches, it reaches.
proof fn lemma_reaches_is_transitive(run: Run, middle: Run, later: Run)
    requires
        run.reaches(middle),
        middle.reaches(later),
    ensures
        run.reaches(later),
{
    let first = choose|count: nat| #[trigger] run.takes(count, middle);
    let second = choose|count: nat| #[trigger] middle.takes(count, later);
    lemma_ticks_add(run, first, second);
    assert(run.takes(first + second, later));
}

/// A run reaches what one action leads to.
proof fn lemma_tick_reaches(run: Run)
    requires
        run.can_tick(),
    ensures
        run.reaches(run.tick()),
{
    reveal_with_fuel(Run::ticks, 2);
    reveal_with_fuel(Run::can_ticks, 2);
    assert(run.takes(1, run.tick()));
}

/// A run reaches what it reaches after one action.
proof fn lemma_reaches_after_tick(run: Run, later: Run)
    requires
        run.can_tick(),
        run.tick().reaches(later),
    ensures
        run.reaches(later),
{
    lemma_tick_reaches(run);
    lemma_reaches_is_transitive(run, run.tick(), later);
}

/// A run at a stage of the bring-up.
pub open spec fn run_at(
    regions: Regions,
    support: VmxSupport,
    stage: Stage,
    processor: Processor,
) -> Run {
    Run { session: Session { regions, support, stage }, processor }
}

/// The value can be fetched from the processor and written to the VMCS.
spec fn can_be_written(processor: Processor, fetch: Fetch) -> bool {
    &&& processor.has_vmcs()
    &&& fetch is TrGdtBase ==> processor.has_task_state()
    &&& fetch matches Fetch::TrSelector { gdt_base } ==> gdt_base
        + processor.selectors[Segment::Tr] <= u64::MAX
}

/// From wherever fetching the value of a field has come, the run reaches the next field, with the
/// value written.
proof fn lemma_field_gets_written(
    regions: Regions,
    support: VmxSupport,
    init: InitVmcs,
    processor: Processor,
)
    requires
        init.wf(),
        can_be_written(processor, init.fetch),
    ensures
        run_at(regions, support, Stage::InitVmcs(init), processor).reaches(
            run_at(
                regions,
                support,
                if init.index + 1 < VMCS_ENTRIES {
                    Stage::InitVmcs(InitVmcs::at(regions, (init.index + 1) as usize))
                } else {
                    Stage::Launch(LaunchVm::RunGuest)
                },
                processor.after(
                    Action::VmWrite(
                        vmcs_plan(regions, init.index).field,
                        processor.fetched(init.fetch),
                    ),
                ),
            ),
        ),
    decreases init.fetch.remaining(),
{
    let run = run_at(regions, support, Stage::InitVmcs(init), processor);
    let reply = processor.reply(init.action_spec(regions));
    assert(run.can_tick());
    match init.fetch.next_spec(reply) {
        None => {
            lemma_tick_reaches(run);
        },
        Some(fetch) => {
            let later = InitVmcs { index: init.index, fetch };
            lemma_field_gets_written(regions, support, later, processor);
            assert(processor.fetched(fetch) == processor.fetched(init.fetch));
            assert(run.tick() == run_at(regions, support, Stage::InitVmcs(later), processor));
            lemma_reaches_after_tick(
                run,
                run_at(
                    regions,
                    support,
                    if init.index + 1 < VMCS_ENTRIES {
                        Stage::InitVmcs(InitVmcs::at(regions, (init.index + 1) as usize))
                    } else {
                        Stage::Launch(LaunchVm::RunGuest)
                    },
                    processor.after(
                        Action::VmWrite(
                            vmcs_plan(regions, init.index).field,
                            processor.fetched(init.fetch),
                        ),
                    ),
                ),
            );
        },
    }
}

/// From the beginning of a field, the run reaches the launch with every field from there written.
proof fn lemma_vmcs_gets_filled(
    regions: Regions,
    support: VmxSupport,
    index: usize,
    processor: Processor,
)
    requires
        index < VMCS_ENTRIES,
        processor.has_vmcs(),
        processor.has_task_state(),
    ensures
        run_at(
            regions,
            support,
            Stage::InitVmcs(InitVmcs::at(regions, index)),
            processor.filled(regions, index as nat),
        ).reaches(
            run_at(
                regions,
                support,
                Stage::Launch(LaunchVm::RunGuest),
                processor.filled(regions, VMCS_ENTRIES as nat),
            ),
        ),
    decreases VMCS_ENTRIES - index,
{
    let init = InitVmcs::at(regions, index);
    let here = processor.filled(regions, index as nat);
    law_only_the_vmcs_is_filled(processor, regions, index as nat);
    lemma_plan_starts(regions, index);
    lemma_field_gets_written(regions, support, init, here);
    if index + 1 < VMCS_ENTRIES {
        let next = (index + 1) as usize;
        lemma_vmcs_gets_filled(regions, support, next, processor);
        lemma_reaches_is_transitive(
            run_at(regions, support, Stage::InitVmcs(init), here),
            run_at(
                regions,
                support,
                Stage::InitVmcs(InitVmcs::at(regions, next)),
                processor.filled(regions, next as nat),
            ),
            run_at(
                regions,
                support,
                Stage::Launch(LaunchVm::RunGuest),
                processor.filled(regions, VMCS_ENTRIES as nat),
            ),
        );
    }
}

/// No value of the plan begins half fetched.
proof fn lemma_plan_starts(regions: Regions, index: usize)
    ensures
        vmcs_plan(regions, index).value !is TrSelector,
{
}

/// Filling in the VMCS ends in the launch. On a processor that is in VMX operation, has a current
/// VMCS and a task-state segment, every field of the plan is written on the way, and nothing else
/// changes.
pub proof fn law_init_fills_the_vmcs(regions: Regions, support: VmxSupport, processor: Processor)
    requires
        processor.has_vmcs(),
        processor.has_task_state(),
    ensures
        run_at(
            regions,
            support,
            Stage::InitVmcs(InitVmcs::at(regions, 0)),
            processor,
        ).reaches(
            run_at(
                regions,
                support,
                Stage::Launch(LaunchVm::RunGuest),
                processor.filled(regions, VMCS_ENTRIES as nat),
            ),
        ),
{
    lemma_vmcs_gets_filled(regions, support, 0, processor);
}

/// The regions are two pages of the kernel image.
pub open spec fn pages(regions: Regions) -> bool {
    &&& regions.wf()
    &&& regions.vmxon % 0x1000 == 0
    &&& regions.vmcs % 0x1000 == 0
    &&& regions.vmxon != regions.vmcs
}

/// The processor can be brought into VMX operation: it is not in it, the firmware has not locked
/// VMX out, no bit of CR0 is fixed both ways, none without a name is fixed to 1, and the revision
/// identifier has 31 bits.
pub open spec fn ready(processor: Processor) -> bool {
    let fixed0 = processor.msrs[msr::IA32_VMX_CR0_FIXED0];
    let fixed1 = processor.msrs[msr::IA32_VMX_CR0_FIXED1];
    let feature_control = processor.msrs[msr::IA32_FEATURE_CONTROL];
    &&& processor.vmxon is None
    &&& feature_control_locked(feature_control) ==> feature_control
        & IA32_FEATURE_CONTROL_ENABLE_VMX_OUTSIDE_SMX_FLAG
        == IA32_FEATURE_CONTROL_ENABLE_VMX_OUTSIDE_SMX_FLAG
    &&& fixed0 & fixed1 == fixed0
    &&& fixed0 & CR0_FLAGS == fixed0
    &&& processor.msrs[msr::IA32_VMX_BASIC] % 0x1_0000_0000 < 0x8000_0000
}

/// The processor with what VMXON demands: VMX enabled in CR4 and, unless it is locked, in
/// `IA32_FEATURE_CONTROL`, and CR0 adjusted.
pub open spec fn prepared(processor: Processor) -> Processor {
    let feature_control = processor.msrs[msr::IA32_FEATURE_CONTROL];
    Processor {
        cr0: cr0_for_vmx(
            processor.cr0,
            processor.msrs[msr::IA32_VMX_CR0_FIXED0],
            processor.msrs[msr::IA32_VMX_CR0_FIXED1],
        ),
        cr4: processor.cr4 | CR4_VMXE,
        msrs: if feature_control_locked(feature_control) {
            processor.msrs
        } else {
            processor.msrs.insert(
                msr::IA32_FEATURE_CONTROL,
                feature_control_enabled(feature_control),
            )
        },
        ..processor
    }
}

/// The revision identifier that goes into both regions.
pub open spec fn region_revision(processor: Processor) -> u32 {
    (processor.msrs[msr::IA32_VMX_BASIC] % 0x1_0000_0000) as u32
}

/// The processor in VMX operation.
pub open spec fn entered(processor: Processor, regions: Regions) -> Processor {
    Processor {
        vmxon: Some(
            ((regions.vmxon - KERNEL_CODE_BASE) as u64, region_revision(processor)),
        ),
        ..processor
    }
}

/// The processor with the VMCS cleared and current.
pub open spec fn loaded(processor: Processor, regions: Regions) -> Processor {
    Processor {
        cleared: Some(
            ((regions.vmcs - KERNEL_CODE_BASE) as u64, region_revision(processor)),
        ),
        current: Some((regions.vmcs - KERNEL_CODE_BASE) as u64),
        ..processor
    }
}

/// Setting one flag of CR4 and writing the flags back sets that flag and changes nothing else.
proof fn lemma_cr4_written_back(cr4: u64)
    ensures
        (cr4 & !CR4_FLAGS) | ((cr4 & CR4_FLAGS) | CR4_VMXE) == cr4 | CR4_VMXE,
        (cr4 | CR4_VMXE) & CR4_VMXE == CR4_VMXE,
{
    assert((cr4 & !0x01ff_7fffu64) | ((cr4 & 0x01ff_7fff) | 0x2000) == cr4 | 0x2000)
        by (bit_vector);
    assert((cr4 | 0x2000) & 0x2000 == 0x2000) by (bit_vector);
}

/// The bits of CR0 without a name have no say in the adjusted CR0.
proof fn lemma_cr0_named_bits_decide(cr0: u64, fixed0: u64, fixed1: u64)
    ensures
        cr0_for_vmx(cr0 & CR0_FLAGS, fixed0, fixed1) == cr0_for_vmx(cr0, fixed0, fixed1),
{
    assert((((cr0 & 0xe005_003f) & fixed1) | fixed0) & 0xe005_003f == ((cr0 & fixed1) | fixed0)
        & 0xe005_003f) by (bit_vector);
}

/// What the bring-up does before VMXON makes VMXON succeed.
pub proof fn law_vmxon_is_allowed(processor: Processor, regions: Regions)
    requires
        pages(regions),
        ready(processor),
    ensures
        prepared(processor).vmxon_allowed(
            (regions.vmxon - KERNEL_CODE_BASE) as u64,
            region_revision(processor),
        ),
{
    let feature_control = processor.msrs[msr::IA32_FEATURE_CONTROL];
    let basic = processor.msrs[msr::IA32_VMX_BASIC];
    law_cr0_meets_fixed_bits(
        processor.cr0,
        processor.msrs[msr::IA32_VMX_CR0_FIXED0],
        processor.msrs[msr::IA32_VMX_CR0_FIXED1],
    );
    law_feature_control_enables_vmx(feature_control);
    lemma_cr4_written_back(processor.cr4);
    assert(feature_control & 0x1 != 0 ==> feature_control & 0x1 == 0x1) by (bit_vector);
    assert(prepared(processor).msrs[msr::IA32_VMX_BASIC] == basic);
}

/// Entering VMX operation ends with the processor in it, and goes on to the VMCS.
#[verifier::rlimit(30)]
pub proof fn law_enable_enters_vmx_operation(
    regions: Regions,
    support: VmxSupport,
    processor: Processor,
)
    requires
        pages(regions),
        ready(processor),
    ensures
        run_at(regions, support, Stage::EnableVmx(EnableVmx::ReadCr4), processor).reaches(
            run_at(
                regions,
                support,
                Stage::EnableVmcs(EnableVmcs::ReadRevision),
                entered(prepared(processor), regions),
            ),
        ),
{
    let fixed0 = processor.msrs[msr::IA32_VMX_CR0_FIXED0];
    let fixed1 = processor.msrs[msr::IA32_VMX_CR0_FIXED1];
    let end = run_at(
        regions,
        support,
        Stage::EnableVmcs(EnableVmcs::ReadRevision),
        entered(prepared(processor), regions),
    );
    lemma_cr4_written_back(processor.cr4);
    lemma_cr0_named_bits_decide(processor.cr0, fixed0, fixed1);
    law_vmxon_is_allowed(processor, regions);

    let r0 = run_at(regions, support, Stage::EnableVmx(EnableVmx::ReadCr4), processor);
    let r1 = r0.tick();
    let r2 = r1.tick();
    let r3 = r2.tick();
    let unlocked = if feature_control_locked(processor.msrs[msr::IA32_FEATURE_CONTROL]) {
        r3
    } else {
        r3.tick()
    };
    assert(unlocked.session.stage == Stage::EnableVmx(EnableVmx::ReadFixed0));
    assert(unlocked.processor == (Processor { cr0: processor.cr0, ..prepared(processor) }));
    let r4 = unlocked.tick();
    let r5 = r4.tick();
    let r6 = r5.tick();
    let r7 = r6.tick();
    assert(r7.processor == prepared(processor));
    let r8 = r7.tick();
    assert(r8.tick() == end);
    lemma_tick_reaches(r8);
    lemma_reaches_after_tick(r7, end);
    lemma_reaches_after_tick(r6, end);
    lemma_reaches_after_tick(r5, end);
    lemma_reaches_after_tick(r4, end);
    lemma_reaches_after_tick(unlocked, end);
    if unlocked != r3 {
        lemma_reaches_after_tick(r3, end);
    }
    lemma_reaches_after_tick(r2, end);
    lemma_reaches_after_tick(r1, end);
    lemma_reaches_after_tick(r0, end);
}

/// On a processor in VMX operation the VMCS becomes current, and the run goes on to fill it in.
pub proof fn law_enable_makes_the_vmcs_current(
    regions: Regions,
    support: VmxSupport,
    processor: Processor,
)
    requires
        pages(regions),
        processor.vmxon matches Some(vmxon) && vmxon.0 == regions.vmxon - KERNEL_CODE_BASE,
        processor.msrs[msr::IA32_VMX_BASIC] % 0x1_0000_0000 < 0x8000_0000,
    ensures
        run_at(
            regions,
            support,
            Stage::EnableVmcs(EnableVmcs::ReadRevision),
            processor,
        ).reaches(
            run_at(
                regions,
                support,
                Stage::InitVmcs(InitVmcs::at(regions, 0)),
                loaded(processor, regions),
            ),
        ),
{
    let end = run_at(
        regions,
        support,
        Stage::InitVmcs(InitVmcs::at(regions, 0)),
        loaded(processor, regions),
    );
    let r0 = run_at(regions, support, Stage::EnableVmcs(EnableVmcs::ReadRevision), processor);
    let r1 = run_at(
        regions,
        support,
        Stage::EnableVmcs(EnableVmcs::Vmclear { revision: region_revision(processor) }),
        processor,
    );
    let r2 = run_at(
        regions,
        support,
        Stage::EnableVmcs(EnableVmcs::Vmptrld),
        Processor { cleared: loaded(processor, regions).cleared, ..processor },
    );
    assert(r0.can_tick() && r0.tick() == r1);
    assert(r1.can_tick() && r1.tick() == r2);
    assert(r2.can_tick() && r2.tick() == end);
    lemma_tick_reaches(r2);
    lemma_reaches_after_tick(r1, end);
    lemma_reaches_after_tick(r0, end);
}

/// What is reported of a launch, given the flags register after it and the VMCS.
pub open spec fn report_of(flags: u64, vmcs: Map<u32, u64>) -> LaunchReport {
    match vm_outcome(flags) {
        VmOutcome::FailValid => LaunchReport::FailValid {
            error: field_value(vmread_of(vmcs, ro::VM_INSTRUCTION_ERROR)),
        },
        VmOutcome::FailInvalid => LaunchReport::FailInvalid,
        VmOutcome::Succeed => LaunchReport::Exited {
            reason: (field_value(vmread_of(vmcs, ro::EXIT_REASON)) % 0x1_0000) as u32,
        },
    }
}

/// However the launch goes, the bring-up reports it and leaves VMX operation.
pub proof fn law_launch_leaves_vmx_operation(
    regions: Regions,
    support: VmxSupport,
    processor: Processor,
)
    requires
        processor.has_vmcs(),
    ensures
        run_at(regions, support, Stage::Launch(LaunchVm::RunGuest), processor).reaches(
            run_at(
                regions,
                support,
                Stage::Finished(report_of(processor.guest_flags, processor.vmcs)),
                Processor { vmxon: None, ..processor },
            ),
        ),
{
    let end = run_at(
        regions,
        support,
        Stage::Finished(report_of(processor.guest_flags, processor.vmcs)),
        Processor { vmxon: None, ..processor },
    );
    let r0 = run_at(regions, support, Stage::Launch(LaunchVm::RunGuest), processor);
    let r1 = r0.tick();
    let reported = if vm_outcome(processor.guest_flags) is FailInvalid {
        r1
    } else {
        r1.tick()
    };
    assert(reported.tick() == end);
    lemma_tick_reaches(reported);
    if reported != r1 {
        lemma_reaches_after_tick(r1, end);
    }
    lemma_reaches_after_tick(r0, end);
}

/// The processor as the guest is launched on it.
pub open spec fn launched(processor: Processor, regions: Regions) -> Processor {
    loaded(entered(prepared(processor), regions), regions).filled(regions, VMCS_ENTRIES as nat)
}

/// The bring-up from end to end: on a processor that can be brought into VMX operation, it gets as
/// far as the launch, with VMX operation entered and the VMCS current and filled in; and from there
/// it reports what came of the launch and leaves VMX operation.
pub proof fn law_bring_up_runs_to_the_end(processor: Processor, regions: Regions)
    requires
        pages(regions),
        ready(processor),
        processor.has_task_state(),
    ensures
        (Run {
            session: Session::begin_spec(regions, VmxSupport::Supported),
            processor,
        }).reaches(
            run_at(
                regions,
                VmxSupport::Supported,
                Stage::Launch(LaunchVm::RunGuest),
                launched(processor, regions),
            ),
        ),
        (Run {
            session: Session::begin_spec(regions, VmxSupport::Supported),
            processor,
        }).reaches(
            run_at(
                regions,
                VmxSupport::Supported,
                Stage::Finished(
                    report_of(processor.guest_flags, launched(processor, regions).vmcs),
                ),
                Processor { vmxon: None, ..launched(processor, regions) },
            ),
        ),
{
    let support = VmxSupport::Supported;
    let in_vmx = entered(prepared(processor), regions);
    let with_vmcs = loaded(in_vmx, regions);
    let start = Run { session: Session::begin_spec(regions, support), processor };
    let at_vmcs = run_at(regions, support, Stage::EnableVmcs(EnableVmcs::ReadRevision), in_vmx);
    let at_init = run_at(regions, support, Stage::InitVmcs(InitVmcs::at(regions, 0)), with_vmcs);
    let at_launch = run_at(
        regions,
        support,
        Stage::Launch(LaunchVm::RunGuest),
        launched(processor, regions),
    );
    let at_end = run_at(
        regions,
        support,
        Stage::Finished(report_of(processor.guest_flags, launched(processor, regions).vmcs)),
        Processor { vmxon: None, ..launched(processor, regions) },
    );
    law_enable_enters_vmx_operation(regions, support, processor);
    law_enable_makes_the_vmcs_current(regions, support, in_vmx);
    law_init_fills_the_vmcs(regions, support, with_vmcs);
    law_only_the_vmcs_is_filled(with_vmcs, regions, VMCS_ENTRIES as nat);
    law_launch_leaves_vmx_operation(regions, support, launched(processor, regions));
    lemma_reaches_is_transitive(start, at_vmcs, at_init);
    lemma_reaches_is_transitive(start, at_init, at_launch);
    lemma_reaches_is_transitive(start, at_launch, at_end);
}

/// The guest is launched with a CR0 that has the bits that VMX operation fixes, and with VMX enabled
/// in CR4; and so has the host after the exit.
pub proof fn law_launched_control_registers_meet_vmx(processor: Processor, regions: Regions)
    requires
        processor.wf(),
        ready(processor),
    ensures
        ({
            let vmcs = launched(processor, regions).vmcs;
            let fixed0 = processor.msrs[msr::IA32_VMX_CR0_FIXED0];
            let fixed1 = processor.msrs[msr::IA32_VMX_CR0_FIXED1];
            &&& vmcs[guest::CR0] & fixed0 == fixed0
            &&& vmcs[guest::CR0] & fixed1 == vmcs[guest::CR0]
            &&& vmcs[guest::CR4] & CR4_VMXE == CR4_VMXE
            &&& vmcs[host::CR0] == vmcs[guest::CR0]
            &&& vmcs[host::CR4] == vmcs[guest::CR4]
        }),
{
    let fixed0 = processor.msrs[msr::IA32_VMX_CR0_FIXED0];
    let fixed1 = processor.msrs[msr::IA32_VMX_CR0_FIXED1];
    let with_vmcs = loaded(entered(prepared(processor), regions), regions);
    let cr0 = processor.cr0;
    let cr4 = processor.cr4;
    assert(with_vmcs.wf());
    law_guest_repeats_host(with_vmcs, regions);
    law_host_state_is_recorded(with_vmcs, regions);
    law_cr0_meets_fixed_bits(cr0, fixed0, fixed1);
    assert((((cr0 & fixed1) | fixed0) & 0xe005_003f) & 0xe005_003f == ((cr0 & fixed1) | fixed0)
        & 0xe005_003f) by (bit_vector);
    assert(((cr4 | 0x2000) & 0x0077_7fff) & 0x2000 == 0x2000) by (bit_vector);
}

/// Where CPUID shows no VMX, the bring-up goes straight to the VMCS. It never enters VMX operation,
/// and so gets no further than VMCLEAR, which fails.
pub proof fn law_no_vmx_stops_at_vmclear(
    processor: Processor,
    regions: Regions,
    support: VmxSupport,
)
    requires
        support !is Supported,
        processor.vmxon is None,
    ensures
        ({
            let start = Run { session: Session::begin_spec(regions, support), processor };
            &&& start.session.action_spec() == Some(
                Action::Read(Register::Msr(msr::IA32_VMX_BASIC)),
            )
            &&& start.can_tick()
            &&& start.tick().processor == processor
            &&& start.tick().session.action_spec() == Some(
                Action::Vmclear {
                    address: (regions.vmcs - KERNEL_CODE_BASE) as u64,
                    revision: region_revision(processor),
                },
            )
            &&& !start.tick().can_tick()
        }),
{
}

/// The bring-up is finished by VMXOFF and by nothing else.
pub proof fn law_vmxoff_comes_last(session: Session, reply: Reply)
    requires
        session.accepts_spec(reply),
    ensures
        session.step_spec(reply).stage is Finished <==> session.action_spec() == Some(
            Action::Vmxoff,
        ),
        session.step_spec(reply).stage is Finished <==> session.step_spec(
            reply,
        ).action_spec() is None,
{
}

/// The one MSR that the bring-up ever writes is `IA32_FEATURE_CONTROL`.
pub proof fn law_only_feature_control_is_written(session: Session, address: u32, value: u64)
    requires
        session.action_spec() == Some(Action::WriteMsr(address, value)),
    ensures
        address == msr::IA32_FEATURE_CONTROL,
{
}

/// The replies answer the bring-up one by one.
pub open spec fn answered(session: Session, replies: Seq<Reply>) -> bool
    decreases replies.len(),
{
    replies.len() == 0 || (session.accepts_spec(replies[0]) && answered(
        session.step_spec(replies[0]),
        replies.skip(1),
    ))
}

/// As many replies as are accepted bring the end nearer.
proof fn lemma_replies_are_counted(session: Session, replies: Seq<Reply>)
    requires
        session.wf(),
        answered(session, replies),
    ensures
        replies.len() <= session.stage.remaining(),
    decreases replies.len(),
{
    if replies.len() > 0 {
        lemma_fetch_is_short(session.regions, 0);
        if let Stage::InitVmcs(init) = session.stage {
            if init.index + 1 < VMCS_ENTRIES {
                lemma_fetch_is_short(session.regions, (init.index + 1) as usize);
            }
        }
        lemma_replies_are_counted(session.step_spec(replies[0]), replies.skip(1));
    }
}

/// No value of the plan takes more than four actions, and the first takes three.
proof fn lemma_fetch_is_short(regions: Regions, index: usize)
    ensures
        vmcs_plan(regions, index).value.remaining() <= 4,
        index == 0 ==> vmcs_plan(regions, index).value.remaining() == 3,
{
}

/// Whatever the processor answers, a bring-up is over after 335 actions at the latest.
pub proof fn law_bring_up_is_bounded(
    regions: Regions,
    support: VmxSupport,
    replies: Seq<Reply>,
)
    requires
        regions.wf(),
        answered(Session::begin_spec(regions, support), replies),
    ensures
        replies.len() <= 335,
{
    lemma_replies_are_counted(Session::begin_spec(regions, support), replies);
}

/// A processor on which VMXON is not allowed never gets past VMXON, and likewise for VMCLEAR,
/// VMPTRLD and VMWRITE: the bring-up goes on after none of them unless it succeeded.
pub proof fn law_refused_instructions_stop_the_bring_up(
    regions: Regions,
    support: VmxSupport,
    processor: Processor,
    revision: u32,
    index: usize,
    value: u64,
)
    requires
        regions.wf(),
    ensures
        ({
            let vmxon = (regions.vmxon - 0xffff_ffff_8000_0000) as u64;
            let vmcs = (regions.vmcs - 0xffff_ffff_8000_0000) as u64;
            let enable_vmx = Stage::EnableVmx(EnableVmx::Vmxon { revision });
            let vmclear = Stage::EnableVmcs(EnableVmcs::Vmclear { revision });
            let vmptrld = Stage::EnableVmcs(EnableVmcs::Vmptrld);
            let vmwrite = Stage::InitVmcs(InitVmcs { index, fetch: Fetch::Ready(value) });
            &&& run_at(regions, support, enable_vmx, processor).can_tick()
                <==> processor.vmxon_allowed(vmxon, revision)
            &&& run_at(regions, support, vmclear, processor).can_tick()
                <==> processor.vmclear_allowed(vmcs)
            &&& run_at(regions, support, vmptrld, processor).can_tick()
                <==> processor.vmptrld_allowed(vmcs)
            &&& run_at(regions, support, vmwrite, processor).can_tick() <==> processor.has_vmcs()
        }),
{
}

} // verus!
