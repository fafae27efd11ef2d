//! Whole runs of the bring-up on a simulated processor.

use std::collections::HashMap;

use vmx_bringup::adjust::VmxControl;
use vmx_bringup::enable::{EnableVmcs, EnableVmx, VmxSupport};
use vmx_bringup::init::{vmcs_entry, Fetch, VmcsEntry, VMCS_ENTRIES};
use vmx_bringup::launch::LaunchReport;
use vmx_bringup::machine::{Action, Descriptor64, Regions, Register, Reply, Segment, VmFail};
use vmx_bringup::msr;
use vmx_bringup::session::{start_hypervisor, Session, Stage};
use vmx_bringup::vmcs::{control, guest, host, ro};

const REGIONS: Regions = Regions {
    vmxon: 0xffff_ffff_8010_0000,
    vmcs: 0xffff_ffff_8010_1000,
    guest_stack: 0xffff_ffff_8010_2000,
    guest_code: 0xffff_ffff_8008_8abc,
};

struct Processor {
    cr0: u64,
    cr4: u64,
    msrs: HashMap<u32, u64>,
    vmcs: HashMap<u32, u64>,
    vmxon: bool,
    flags: u64,
    log: Vec<Action>,
}

fn selector(segment: Segment) -> u16 {
    match segment {
        Segment::Es => 0,
        Segment::Cs => 0x8,
        Segment::Ss => 0x10,
        Segment::Ds => 0x10,
        Segment::Fs => 0,
        Segment::Gs => 0x18,
        Segment::Tr => 0x28,
    }
}

fn processor() -> Processor {
    let msrs = HashMap::from([
        (msr::IA32_FEATURE_CONTROL, 0x0),
        (msr::IA32_VMX_CR0_FIXED0, 0x8000_0021),
        (msr::IA32_VMX_CR0_FIXED1, 0xffff_ffff),
        (msr::IA32_VMX_BASIC, 0x00da_0400_0000_0012),
        (msr::IA32_VMX_TRUE_PINBASED_CTLS, 0x0000_007f_0000_0016),
        (msr::IA32_VMX_TRUE_PROCBASED_CTLS, 0xfff9_fffe_0400_6172),
        (msr::IA32_VMX_PROCBASED_CTLS2, 0x0000_ffff_0000_0000),
        (msr::IA32_VMX_TRUE_EXIT_CTLS, 0x01ff_ffff_0003_6dfb),
        (msr::IA32_VMX_TRUE_ENTRY_CTLS, 0x0003_ffff_0000_11fb),
        (msr::IA32_FS_BASE, 0xf5f5),
        (msr::IA32_GS_BASE, 0xffff_8000_0000_6565),
        (msr::SYSENTER_CS_MSR, 0xc5_0000_0008),
        (msr::SYSENTER_ESP_MSR, 0xe5e5),
        (msr::SYSENTER_EIP_MSR, 0xe1e1),
    ]);
    // What the processor itself keeps in the VMCS.
    let vmcs = HashMap::from([
        (ro::VM_INSTRUCTION_ERROR, 7),
        (ro::EXIT_REASON, 0x8000_000a),
        (host::IA32_PAT_FULL, 0x0007_0406_0007_0406),
        (host::IA32_EFER_FULL, 0xd01),
    ]);
    Processor {
        cr0: 0x8001_0013,
        cr4: 0x6f8,
        msrs,
        vmcs,
        vmxon: false,
        flags: 0x2,
        log: Vec::new(),
    }
}

fn fit(field: u32, value: u64) -> u64 {
    match (field >> 13) & 3 {
        0 => value & 0xffff,
        2 => value & 0xffff_ffff,
        _ => value,
    }
}

impl Processor {
    fn perform(&mut self, action: Action) -> Reply {
        self.log.push(action);
        match action {
            Action::Read(Register::Cr0) => Reply::Value(self.cr0),
            Action::Read(Register::Cr3) => Reply::Value(0xc3c3_0000),
            Action::Read(Register::Cr4) => Reply::Value(self.cr4),
            Action::Read(Register::Cr4Flags) => Reply::Value(self.cr4),
            Action::Read(Register::GdtBase) => Reply::Value(0xffff_8000_0000_7000),
            Action::Read(Register::IdtBase) => Reply::Value(0xffff_8000_0000_8000),
            Action::Read(Register::Msr(address)) => Reply::Value(self.msrs[&address]),
            Action::WriteMsr(address, value) => {
                self.msrs.insert(address, value);
                Reply::Done
            }
            Action::WriteCr0(value) => {
                self.cr0 = value;
                Reply::Done
            }
            Action::WriteCr4Flags(value) => {
                self.cr4 = value;
                Reply::Done
            }
            Action::ReadSelector(segment) => Reply::Selector(selector(segment)),
            Action::ReadDescriptor(address) => {
                assert_eq!(address, 0xffff_8000_0000_7028);
                Reply::Descriptor(Descriptor64 {
                    limit: 0x67,
                    base0: 0x9000,
                    base1: 0x34,
                    pad1: 0x8b,
                    pad2: 0,
                    base2: 0x12,
                    base3: 0xffff_8000,
                    zero1: 0,
                })
            }
            Action::Vmxon { .. } => {
                self.vmxon = true;
                Reply::Instruction(Ok(()))
            }
            Action::Vmclear { .. } | Action::Vmptrld { .. } => {
                if self.vmxon {
                    Reply::Instruction(Ok(()))
                } else {
                    Reply::Instruction(Err(VmFail::Invalid))
                }
            }
            Action::VmRead(field) => Reply::Field(match self.vmcs.get(&field) {
                Some(value) => Ok(*value),
                None => Err(VmFail::Valid),
            }),
            Action::VmWrite(field, value) => {
                self.vmcs.insert(field, fit(field, value));
                Reply::Instruction(Ok(()))
            }
            Action::RunGuest => Reply::Value(self.flags),
            Action::Vmxoff => {
                self.vmxon = false;
                Reply::Done
            }
        }
    }

    /// Runs a bring-up until it is finished or a reply is refused.
    fn run(&mut self, begin: Session) -> Session {
        let mut session = begin;
        while let Some(action) = session.action() {
            let reply = self.perform(action);
            if !session.accepts(&reply) {
                return session;
            }
            session = session.step(reply);
        }
        session
    }

    fn writes(&self) -> Vec<(u32, u64)> {
        let mut writes = Vec::new();
        for action in &self.log {
            if let Action::VmWrite(field, value) = action {
                writes.push((*field, *value));
            }
        }
        writes
    }
}

#[test]
fn vmx_operation_is_entered_in_order() {
    let mut cpu = processor();
    cpu.run(Session::begin(REGIONS, VmxSupport::Supported));
    let expected = [
        Action::Read(Register::Cr4Flags),
        Action::WriteCr4Flags(0x26f8),
        Action::Read(Register::Msr(msr::IA32_FEATURE_CONTROL)),
        Action::WriteMsr(msr::IA32_FEATURE_CONTROL, 0x5),
        Action::Read(Register::Msr(msr::IA32_VMX_CR0_FIXED0)),
        Action::Read(Register::Msr(msr::IA32_VMX_CR0_FIXED1)),
        Action::Read(Register::Cr0),
        Action::WriteCr0(0x8001_0033),
        Action::Read(Register::Msr(msr::IA32_VMX_BASIC)),
        Action::Vmxon { address: 0x10_0000, revision: 0x12 },
        Action::Read(Register::Msr(msr::IA32_VMX_BASIC)),
        Action::Vmclear { address: 0x10_1000, revision: 0x12 },
        Action::Vmptrld { address: 0x10_1000 },
        Action::Read(Register::Msr(msr::IA32_VMX_BASIC)),
        Action::Read(Register::Msr(msr::IA32_VMX_TRUE_PINBASED_CTLS)),
        Action::VmWrite(control::PINBASED_EXEC_CONTROLS, 0x16),
    ];
    assert_eq!(cpu.log[..expected.len()], expected);
}

#[test]
fn locked_feature_control_is_left_alone() {
    let mut cpu = processor();
    cpu.msrs.insert(msr::IA32_FEATURE_CONTROL, 0x5);
    cpu.run(Session::begin(REGIONS, VmxSupport::Supported));
    assert_eq!(cpu.log[2], Action::Read(Register::Msr(msr::IA32_FEATURE_CONTROL)));
    assert_eq!(cpu.log[3], Action::Read(Register::Msr(msr::IA32_VMX_CR0_FIXED0)));
    for action in &cpu.log {
        assert!(!matches!(action, Action::WriteMsr(_, _)));
    }
}

#[test]
fn vmcs_is_filled_in_order() {
    let mut cpu = processor();
    cpu.run(Session::begin(REGIONS, VmxSupport::Supported));
    let tr_base = 0xffff_8000_1234_9000;
    let expected: Vec<(u32, u64)> = vec![
        (control::PINBASED_EXEC_CONTROLS, 0x16),
        (control::PRIMARY_PROCBASED_EXEC_CONTROLS, 0x0400_6172),
        (control::SECONDARY_PROCBASED_EXEC_CONTROLS, 0),
        (control::VMEXIT_CONTROLS, 0x3_6ffb),
        (control::VMENTRY_CONTROLS, 0x13fb),
        (control::EXCEPTION_BITMAP, 0),
        (control::VPID, 0),
        (host::CR0, 0x8001_0033),
        (host::CR3, 0xc3c3_0000),
        (host::CR4, 0x26f8),
        (host::ES_SELECTOR, 0),
        (host::CS_SELECTOR, 0x8),
        (host::SS_SELECTOR, 0x10),
        (host::DS_SELECTOR, 0x10),
        (host::FS_SELECTOR, 0),
        (host::GS_SELECTOR, 0x18),
        (host::TR_SELECTOR, 0x28),
        (host::FS_BASE, 0xf5f5),
        (host::GS_BASE, 0xffff_8000_0000_6565),
        (host::TR_BASE, tr_base),
        (host::GDTR_BASE, 0xffff_8000_0000_7000),
        (host::IDTR_BASE, 0xffff_8000_0000_8000),
        (host::IA32_SYSENTER_ESP, 0xe5e5),
        (host::IA32_SYSENTER_EIP, 0xe1e1),
        (host::IA32_SYSENTER_CS, 0xc5_0000_0008),
        (guest::ES_SELECTOR, 0),
        (guest::CS_SELECTOR, 0x8),
        (guest::SS_SELECTOR, 0x10),
        (guest::DS_SELECTOR, 0x10),
        (guest::FS_SELECTOR, 0),
        (guest::GS_SELECTOR, 0x18),
        (guest::TR_SELECTOR, 0x28),
        (guest::LDTR_SELECTOR, 0),
        (guest::INTERRUPT_STATUS, 0),
        (guest::PML_INDEX, 0),
        (guest::LINK_PTR_FULL, u64::MAX),
        (guest::IA32_DEBUGCTL_FULL, 0),
        (guest::IA32_PAT_FULL, 0x0007_0406_0007_0406),
        (guest::IA32_EFER_FULL, 0xd01),
        (guest::IA32_PERF_GLOBAL_CTRL_FULL, 0),
        (guest::ES_LIMIT, u64::MAX),
        (guest::CS_LIMIT, u64::MAX),
        (guest::SS_LIMIT, u64::MAX),
        (guest::DS_LIMIT, u64::MAX),
        (guest::FS_LIMIT, u64::MAX),
        (guest::GS_LIMIT, u64::MAX),
        (guest::LDTR_LIMIT, u64::MAX),
        (guest::TR_LIMIT, 0x67),
        (guest::GDTR_LIMIT, 0xffff),
        (guest::IDTR_LIMIT, 0xffff),
        (guest::ES_ACCESS_RIGHTS, 0x10000),
        (guest::CS_ACCESS_RIGHTS, 0xa09b),
        (guest::SS_ACCESS_RIGHTS, 0xc093),
        (guest::DS_ACCESS_RIGHTS, 0xc093),
        (guest::FS_ACCESS_RIGHTS, 0x10000),
        (guest::GS_ACCESS_RIGHTS, 0xc093),
        (guest::LDTR_ACCESS_RIGHTS, 0x10000),
        (guest::TR_ACCESS_RIGHTS, 0x8b),
        (guest::INTERRUPTIBILITY_STATE, 0),
        (guest::ACTIVITY_STATE, 0),
        (guest::VMX_PREEMPTION_TIMER_VALUE, 0),
        (guest::IA32_SYSENTER_CS, 0x8),
        (guest::IA32_SYSENTER_ESP, 0xe5e5),
        (guest::IA32_SYSENTER_EIP, 0xe1e1),
        (guest::CR0, 0x8001_0033),
        (guest::CR3, 0xc3c3_0000),
        (guest::CR4, 0x26f8),
        (guest::ES_BASE, 0),
        (guest::CS_BASE, 0),
        (guest::SS_BASE, 0),
        (guest::DS_BASE, 0),
        (guest::FS_BASE, 0xf5f5),
        (guest::GS_BASE, 0xffff_8000_0000_6565),
        (guest::LDTR_BASE, 0),
        (guest::TR_BASE, tr_base),
        (guest::GDTR_BASE, 0xffff_8000_0000_7000),
        (guest::IDTR_BASE, 0xffff_8000_0000_8000),
        (guest::RFLAGS, 2),
        (guest::RSP, REGIONS.guest_stack),
        (guest::RIP, REGIONS.guest_code),
    ];
    assert_eq!(expected.len(), VMCS_ENTRIES);
    assert_eq!(cpu.writes(), expected);
}

#[test]
fn controls_fall_back_to_the_plain_capabilities() {
    let mut cpu = processor();
    cpu.msrs.insert(msr::IA32_VMX_BASIC, 0x005a_0400_0000_0012);
    cpu.msrs.insert(msr::IA32_VMX_PINBASED_CTLS, 0x0000_007f_0000_003f);
    cpu.msrs.insert(msr::IA32_VMX_PROCBASED_CTLS, 0xfff9_fffe_0401_e172);
    cpu.msrs.insert(msr::IA32_VMX_EXIT_CTLS, 0x01ff_ffff_0003_6dff);
    cpu.msrs.insert(msr::IA32_VMX_ENTRY_CTLS, 0x0003_ffff_0000_11ff);
    cpu.run(Session::begin(REGIONS, VmxSupport::Supported));
    assert_eq!(cpu.vmcs[&control::PINBASED_EXEC_CONTROLS], 0x3f);
    assert_eq!(cpu.vmcs[&control::PRIMARY_PROCBASED_EXEC_CONTROLS], 0x0401_e172);
    assert_eq!(cpu.vmcs[&control::VMEXIT_CONTROLS], 0x3_6fff);
    assert_eq!(cpu.vmcs[&control::VMENTRY_CONTROLS], 0x13ff);
}

#[test]
fn guest_repeats_the_host_in_the_end() {
    let mut cpu = processor();
    cpu.run(Session::begin(REGIONS, VmxSupport::Supported));
    let pairs = [
        (guest::ES_SELECTOR, host::ES_SELECTOR),
        (guest::CS_SELECTOR, host::CS_SELECTOR),
        (guest::SS_SELECTOR, host::SS_SELECTOR),
        (guest::DS_SELECTOR, host::DS_SELECTOR),
        (guest::FS_SELECTOR, host::FS_SELECTOR),
        (guest::GS_SELECTOR, host::GS_SELECTOR),
        (guest::TR_SELECTOR, host::TR_SELECTOR),
        (guest::IA32_SYSENTER_CS, host::IA32_SYSENTER_CS),
        (guest::IA32_SYSENTER_ESP, host::IA32_SYSENTER_ESP),
        (guest::IA32_SYSENTER_EIP, host::IA32_SYSENTER_EIP),
        (guest::CR0, host::CR0),
        (guest::CR3, host::CR3),
        (guest::CR4, host::CR4),
        (guest::FS_BASE, host::FS_BASE),
        (guest::GS_BASE, host::GS_BASE),
        (guest::TR_BASE, host::TR_BASE),
        (guest::GDTR_BASE, host::GDTR_BASE),
        (guest::IDTR_BASE, host::IDTR_BASE),
    ];
    for (guest_field, host_field) in pairs {
        assert_eq!(cpu.vmcs[&guest_field], cpu.vmcs[&host_field]);
    }
}

#[test]
fn limits_keep_thirty_two_bits() {
    let mut cpu = processor();
    cpu.run(Session::begin(REGIONS, VmxSupport::Supported));
    assert_eq!(cpu.vmcs[&guest::CS_LIMIT], 0xffff_ffff);
    assert_eq!(cpu.vmcs[&guest::LINK_PTR_FULL], u64::MAX);
}

#[test]
fn control_registers_in_the_vmcs_meet_vmx() {
    let mut cpu = processor();
    cpu.run(Session::begin(REGIONS, VmxSupport::Supported));
    assert_eq!(cpu.vmcs[&guest::CR0] & 0x8000_0021, 0x8000_0021);
    assert_eq!(cpu.vmcs[&guest::CR4] & 0x2000, 0x2000);
}

#[test]
fn no_field_is_written_twice() {
    let mut fields: Vec<u32> = Vec::new();
    for index in 0..VMCS_ENTRIES {
        fields.push(vmcs_entry(&REGIONS, index).field);
    }
    fields.sort();
    fields.dedup();
    assert_eq!(fields.len(), VMCS_ENTRIES);
}

#[test]
fn plan_names_its_sources() {
    assert_eq!(
        vmcs_entry(&REGIONS, 4),
        VmcsEntry {
            field: control::VMENTRY_CONTROLS,
            value: Fetch::ControlBasic { control: VmxControl::VmEntry, requested: 0x200 },
        }
    );
    assert_eq!(
        vmcs_entry(&REGIONS, 19),
        VmcsEntry { field: host::TR_BASE, value: Fetch::TrGdtBase }
    );
    assert_eq!(
        vmcs_entry(&REGIONS, 50),
        VmcsEntry {
            field: guest::ES_ACCESS_RIGHTS,
            value: Fetch::AccessRights(guest::ES_SELECTOR),
        }
    );
}

#[test]
fn guest_exit_is_reported() {
    let mut cpu = processor();
    let session = cpu.run(Session::begin(REGIONS, VmxSupport::Supported));
    assert_eq!(session.report(), Some(LaunchReport::Exited { reason: 10 }));
    assert!(matches!(session.stage, Stage::Finished(_)));
    let count = cpu.log.len();
    assert_eq!(
        cpu.log[count - 3..],
        [Action::RunGuest, Action::VmRead(ro::EXIT_REASON), Action::Vmxoff]
    );
    assert!(!cpu.vmxon);
}

#[test]
fn valid_failure_is_reported_with_its_number() {
    let mut cpu = processor();
    cpu.flags = 0x46;
    let session = cpu.run(Session::begin(REGIONS, VmxSupport::Supported));
    assert_eq!(session.report(), Some(LaunchReport::FailValid { error: 7 }));
    let count = cpu.log.len();
    assert_eq!(
        cpu.log[count - 3..],
        [Action::RunGuest, Action::VmRead(ro::VM_INSTRUCTION_ERROR), Action::Vmxoff]
    );
}

#[test]
fn invalid_failure_is_reported() {
    let mut cpu = processor();
    cpu.flags = 0x3;
    let session = cpu.run(Session::begin(REGIONS, VmxSupport::Supported));
    assert_eq!(session.report(), Some(LaunchReport::FailInvalid));
    let count = cpu.log.len();
    assert_eq!(cpu.log[count - 2..], [Action::RunGuest, Action::Vmxoff]);
}

#[test]
fn bring_up_stays_within_its_bound() {
    let mut cpu = processor();
    cpu.run(Session::begin(REGIONS, VmxSupport::Supported));
    assert!(cpu.log.len() <= 335);
}

#[test]
fn missing_vmx_goes_straight_to_the_vmcs() {
    for support in [VmxSupport::Unsupported, VmxSupport::Unknown] {
        let mut cpu = processor();
        let session = cpu.run(Session::begin(REGIONS, support));
        assert_eq!(
            cpu.log,
            [
                Action::Read(Register::Msr(msr::IA32_VMX_BASIC)),
                Action::Vmclear { address: 0x10_1000, revision: 0x12 },
            ]
        );
        assert_eq!(session.stage, Stage::EnableVmcs(EnableVmcs::Vmclear { revision: 0x12 }));
        assert_eq!(session.report(), None);
    }
}

#[test]
fn failed_instructions_are_refused() {
    let failed = Reply::Instruction(Err(VmFail::Valid));
    let succeeded = Reply::Instruction(Ok(()));
    let stages = [
        Stage::EnableVmx(EnableVmx::Vmxon { revision: 1 }),
        Stage::EnableVmcs(EnableVmcs::Vmclear { revision: 1 }),
        Stage::EnableVmcs(EnableVmcs::Vmptrld),
    ];
    for stage in stages {
        let session = Session { regions: REGIONS, support: VmxSupport::Supported, stage };
        assert!(!session.accepts(&failed));
        assert!(session.accepts(&succeeded));
        assert!(!session.accepts(&Reply::Done));
    }
    assert!(!Fetch::Ready(0).accepts(&failed));
    assert!(Fetch::Ready(0).accepts(&succeeded));
}

#[test]
fn descriptor_beyond_the_address_space_is_refused() {
    let fetch = Fetch::TrSelector { gdt_base: u64::MAX - 0x27 };
    assert!(fetch.accepts(&Reply::Selector(0x27)));
    assert!(!fetch.accepts(&Reply::Selector(0x28)));
}

#[test]
fn failed_vmread_counts_as_zero() {
    assert_eq!(
        Fetch::Field(host::IA32_PAT_FULL).next(Reply::Field(Err(VmFail::Valid))),
        Some(Fetch::Ready(0))
    );
    assert_eq!(
        Fetch::AccessRights(guest::ES_SELECTOR).next(Reply::Field(Err(VmFail::Valid))),
        Some(Fetch::Ready(0x10000))
    );
}

#[test]
fn finished_bring_up_asks_for_nothing() {
    let mut cpu = processor();
    let session = cpu.run(Session::begin(REGIONS, VmxSupport::Supported));
    assert_eq!(session.action(), None);
    assert!(!session.accepts(&Reply::Done));
}

#[test]
fn start_asks_this_processor() {
    let expected = match x86::cpuid::CpuId::new().get_feature_info() {
        Some(feature_info) => {
            if feature_info.has_vmx() {
                VmxSupport::Supported
            } else {
                VmxSupport::Unsupported
            }
        }
        None => VmxSupport::Unknown,
    };
    let session = start_hypervisor(REGIONS);
    assert_eq!(session.support, expected);
    assert_eq!(session, Session::begin(REGIONS, expected));
}
