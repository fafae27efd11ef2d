//! Filling in the VMCS: the controls, the host state, and a guest state that repeats the host's.

use vstd::prelude::*;
use crate::adjust::{
    adjust_vmx_control, capability_msr, capability_msr_of, effective_controls, VmxControl,
};
use crate::machine::{field_value, vmread, Action, Regions, Register, Reply, Segment};
use crate::msr;
use crate::segment::{get_tr_base2, segment_base, tr_descriptor_address2};
use crate::vmcs::{control, guest, host};

verus! {

/// VM-exit control bit 9: the host runs in 64-bit mode after the exit.
pub const IA32_VMX_EXIT_CTLS_HOST_ADDRESS_SPACE_SIZE_FLAG: u32 = 0x200;

/// VM-entry control bit 9: the guest runs in IA-32e mode after the entry.
pub const IA32_VMX_ENTRY_CTLS_IA32E_MODE_GUEST_FLAG: u32 = 0x200;

/// Access rights of a segment register that holds no segment.
pub const UNUSABLE_SEGMENT: u64 = 0x1_0000;

/// Access rights of a writable data segment.
pub const DATA_SEGMENT: u64 = 0xc093;

/// Access rights of a 64-bit code segment.
pub const CODE_SEGMENT: u64 = 0xa09b;

/// Access rights of a busy 64-bit task-state segment.
pub const TASK_STATE_SEGMENT: u64 = 0x8b;

/// The access rights of the guest's data segment registers: a null selector holds no segment.
pub open spec fn rights_of(selector: u64) -> u64 {
    if selector == 0 {
        UNUSABLE_SEGMENT
    } else {
        DATA_SEGMENT
    }
}

/// The access rights that go with a selector of the guest's ES, DS, FS or GS.
pub fn access_rights(selector: u64) -> (rights: u64)
    ensures
        rights == rights_of(selector),
{
    if selector == 0 {
        UNUSABLE_SEGMENT
    } else {
        DATA_SEGMENT
    }
}

/// How far fetching the value of a field has come.
#[derive(Clone, Copy, Debug, PartialEq, Eq)]
pub enum Fetch {
    /// The value is there.
    Ready(u64),
    /// The value is that of a register.
    Register(Register),
    /// The value is a selector.
    Selector(Segment),
    /// The value is that of another field.
    Field(u32),
    /// The value is the access rights that go with the selector in this field.
    AccessRights(u32),
    /// The value is a control, adjusted; `IA32_VMX_BASIC` is to be read.
    ControlBasic { control: VmxControl, requested: u32 },
    /// The value is a control, adjusted; its capability MSR is to be read.
    ControlCapability { cap_msr: u32, requested: u32 },
    /// The value is the base of the task-state segment; the base of the GDT is to be read.
    TrGdtBase,
    /// The value is the base of the task-state segment; the task register is to be read.
    TrSelector { gdt_base: u64 },
    /// The value is the base of the task-state segment; its descriptor is to be read.
    TrDescriptor { address: u64 },
}

/// A field of the VMCS and the value that it gets.
#[derive(Clone, Copy, Debug, PartialEq, Eq)]
pub struct VmcsEntry {
    pub field: u32,
    pub value: Fetch,
}

/// How many fields are written.
pub const VMCS_ENTRIES: usize = 80;

/// The fields in the order in which they are written, each with its value. Guest state that is
/// the host's own is read back from the host field, which was written before.
pub open spec fn vmcs_plan(regions: Regions, index: usize) -> VmcsEntry {
    match index {
        // Control fields, as the capability MSRs allow.
        0 => VmcsEntry {
            field: control::PINBASED_EXEC_CONTROLS,
            value: Fetch::ControlBasic { control: VmxControl::PinBased, requested: 0 },
        },
        1 => VmcsEntry {
            field: control::PRIMARY_PROCBASED_EXEC_CONTROLS,
            value: Fetch::ControlBasic { control: VmxControl::ProcessorBased, requested: 0 },
        },
        2 => VmcsEntry {
            field: control::SECONDARY_PROCBASED_EXEC_CONTROLS,
            value: Fetch::ControlBasic { control: VmxControl::ProcessorBased2, requested: 0 },
        },
        3 => VmcsEntry {
            field: control::VMEXIT_CONTROLS,
            value: Fetch::ControlBasic { control: VmxControl::VmExit, requested: IA32_VMX_EXIT_CTLS_HOST_ADDRESS_SPACE_SIZE_FLAG },
        },
        4 => VmcsEntry {
            field: control::VMENTRY_CONTROLS,
            value: Fetch::ControlBasic { control: VmxControl::VmEntry, requested: IA32_VMX_ENTRY_CTLS_IA32E_MODE_GUEST_FLAG },
        },
        // No guest exception exits, and no VPID is used.
        5 => VmcsEntry { field: control::EXCEPTION_BITMAP, value: Fetch::Ready(0) },
        6 => VmcsEntry { field: control::VPID, value: Fetch::Ready(0) },
        // Host control registers.
        7 => VmcsEntry { field: host::CR0, value: Fetch::Register(Register::Cr0) },
        8 => VmcsEntry { field: host::CR3, value: Fetch::Register(Register::Cr3) },
        9 => VmcsEntry { field: host::CR4, value: Fetch::Register(Register::Cr4) },
        // Host selectors.
        10 => VmcsEntry { field: host::ES_SELECTOR, value: Fetch::Selector(Segment::Es) },
        11 => VmcsEntry { field: host::CS_SELECTOR, value: Fetch::Selector(Segment::Cs) },
        12 => VmcsEntry { field: host::SS_SELECTOR, value: Fetch::Selector(Segment::Ss) },
        13 => VmcsEntry { field: host::DS_SELECTOR, value: Fetch::Selector(Segment::Ds) },
        14 => VmcsEntry { field: host::FS_SELECTOR, value: Fetch::Selector(Segment::Fs) },
        15 => VmcsEntry { field: host::GS_SELECTOR, value: Fetch::Selector(Segment::Gs) },
        16 => VmcsEntry { field: host::TR_SELECTOR, value: Fetch::Selector(Segment::Tr) },
        // Host base addresses.
        17 => VmcsEntry {
            field: host::FS_BASE,
            value: Fetch::Register(Register::Msr(msr::IA32_FS_BASE)),
        },
        18 => VmcsEntry {
            field: host::GS_BASE,
            value: Fetch::Register(Register::Msr(msr::IA32_GS_BASE)),
        },
        19 => VmcsEntry { field: host::TR_BASE, value: Fetch::TrGdtBase },
        20 => VmcsEntry { field: host::GDTR_BASE, value: Fetch::Register(Register::GdtBase) },
        21 => VmcsEntry { field: host::IDTR_BASE, value: Fetch::Register(Register::IdtBase) },
        // Host SYSENTER registers.
        22 => VmcsEntry {
            field: host::IA32_SYSENTER_ESP,
            value: Fetch::Register(Register::Msr(msr::SYSENTER_ESP_MSR)),
        },
        23 => VmcsEntry {
            field: host::IA32_SYSENTER_EIP,
            value: Fetch::Register(Register::Msr(msr::SYSENTER_EIP_MSR)),
        },
        24 => VmcsEntry {
            field: host::IA32_SYSENTER_CS,
            value: Fetch::Register(Register::Msr(msr::SYSENTER_CS_MSR)),
        },
        // Guest selectors, those of the host.
        25 => VmcsEntry { field: guest::ES_SELECTOR, value: Fetch::Field(host::ES_SELECTOR) },
        26 => VmcsEntry { field: guest::CS_SELECTOR, value: Fetch::Field(host::CS_SELECTOR) },
        27 => VmcsEntry { field: guest::SS_SELECTOR, value: Fetch::Field(host::SS_SELECTOR) },
        28 => VmcsEntry { field: guest::DS_SELECTOR, value: Fetch::Field(host::DS_SELECTOR) },
        29 => VmcsEntry { field: guest::FS_SELECTOR, value: Fetch::Field(host::FS_SELECTOR) },
        30 => VmcsEntry { field: guest::GS_SELECTOR, value: Fetch::Field(host::GS_SELECTOR) },
        31 => VmcsEntry { field: guest::TR_SELECTOR, value: Fetch::Field(host::TR_SELECTOR) },
        32 => VmcsEntry { field: guest::LDTR_SELECTOR, value: Fetch::Ready(0) },
        33 => VmcsEntry { field: guest::INTERRUPT_STATUS, value: Fetch::Ready(0) },
        34 => VmcsEntry { field: guest::PML_INDEX, value: Fetch::Ready(0) },
        // Guest 64-bit state. There is no linked VMCS.
        35 => VmcsEntry { field: guest::LINK_PTR_FULL, value: Fetch::Ready(u64::MAX) },
        36 => VmcsEntry { field: guest::IA32_DEBUGCTL_FULL, value: Fetch::Ready(0) },
        37 => VmcsEntry { field: guest::IA32_PAT_FULL, value: Fetch::Field(host::IA32_PAT_FULL) },
        38 => VmcsEntry { field: guest::IA32_EFER_FULL, value: Fetch::Field(host::IA32_EFER_FULL) },
        39 => VmcsEntry {
            field: guest::IA32_PERF_GLOBAL_CTRL_FULL,
            value: Fetch::Field(host::IA32_PERF_GLOBAL_CTRL_FULL),
        },
        // Guest segment limits.
        40 => VmcsEntry { field: guest::ES_LIMIT, value: Fetch::Ready(u64::MAX) },
        41 => VmcsEntry { field: guest::CS_LIMIT, value: Fetch::Ready(u64::MAX) },
        42 => VmcsEntry { field: guest::SS_LIMIT, value: Fetch::Ready(u64::MAX) },
        43 => VmcsEntry { field: guest::DS_LIMIT, value: Fetch::Ready(u64::MAX) },
        44 => VmcsEntry { field: guest::FS_LIMIT, value: Fetch::Ready(u64::MAX) },
        45 => VmcsEntry { field: guest::GS_LIMIT, value: Fetch::Ready(u64::MAX) },
        46 => VmcsEntry { field: guest::LDTR_LIMIT, value: Fetch::Ready(u64::MAX) },
        47 => VmcsEntry { field: guest::TR_LIMIT, value: Fetch::Ready(0x67) },
        48 => VmcsEntry { field: guest::GDTR_LIMIT, value: Fetch::Ready(0xffff) },
        49 => VmcsEntry { field: guest::IDTR_LIMIT, value: Fetch::Ready(0xffff) },
        // Guest access rights.
        50 => VmcsEntry {
            field: guest::ES_ACCESS_RIGHTS,
            value: Fetch::AccessRights(guest::ES_SELECTOR),
        },
        51 => VmcsEntry { field: guest::CS_ACCESS_RIGHTS, value: Fetch::Ready(CODE_SEGMENT) },
        52 => VmcsEntry { field: guest::SS_ACCESS_RIGHTS, value: Fetch::Ready(DATA_SEGMENT) },
        53 => VmcsEntry {
            field: guest::DS_ACCESS_RIGHTS,
            value: Fetch::AccessRights(guest::DS_SELECTOR),
        },
        54 => VmcsEntry {
            field: guest::FS_ACCESS_RIGHTS,
            value: Fetch::AccessRights(guest::FS_SELECTOR),
        },
        55 => VmcsEntry {
            field: guest::GS_ACCESS_RIGHTS,
            value: Fetch::AccessRights(guest::GS_SELECTOR),
        },
        56 => VmcsEntry { field: guest::LDTR_ACCESS_RIGHTS, value: Fetch::Ready(UNUSABLE_SEGMENT) },
        57 => VmcsEntry { field: guest::TR_ACCESS_RIGHTS, value: Fetch::Ready(TASK_STATE_SEGMENT) },
        // Guest non-register state.
        58 => VmcsEntry { field: guest::INTERRUPTIBILITY_STATE, value: Fetch::Ready(0) },
        59 => VmcsEntry { field: guest::ACTIVITY_STATE, value: Fetch::Ready(0) },
        60 => VmcsEntry { field: guest::VMX_PREEMPTION_TIMER_VALUE, value: Fetch::Ready(0) },
        // Guest SYSENTER registers, those of the host.
        61 => VmcsEntry {
            field: guest::IA32_SYSENTER_CS,
            value: Fetch::Field(host::IA32_SYSENTER_CS),
        },
        62 => VmcsEntry {
            field: guest::IA32_SYSENTER_ESP,
            value: Fetch::Field(host::IA32_SYSENTER_ESP),
        },
        63 => VmcsEntry {
            field: guest::IA32_SYSENTER_EIP,
            value: Fetch::Field(host::IA32_SYSENTER_EIP),
        },
        // Guest control registers, those of the host.
        64 => VmcsEntry { field: guest::CR0, value: Fetch::Field(host::CR0) },
        65 => VmcsEntry { field: guest::CR3, value: Fetch::Field(host::CR3) },
        66 => VmcsEntry { field: guest::CR4, value: Fetch::Field(host::CR4) },
        // Guest base addresses.
        67 => VmcsEntry { field: guest::ES_BASE, value: Fetch::Ready(0) },
        68 => VmcsEntry { field: guest::CS_BASE, value: Fetch::Ready(0) },
        69 => VmcsEntry { field: guest::SS_BASE, value: Fetch::Ready(0) },
        70 => VmcsEntry { field: guest::DS_BASE, value: Fetch::Ready(0) },
        71 => VmcsEntry { field: guest::FS_BASE, value: Fetch::Field(host::FS_BASE) },
        72 => VmcsEntry { field: guest::GS_BASE, value: Fetch::Field(host::GS_BASE) },
        73 => VmcsEntry { field: guest::LDTR_BASE, value: Fetch::Ready(0) },
        74 => VmcsEntry { field: guest::TR_BASE, value: Fetch::Field(host::TR_BASE) },
        75 => VmcsEntry { field: guest::GDTR_BASE, value: Fetch::Field(host::GDTR_BASE) },
        76 => VmcsEntry { field: guest::IDTR_BASE, value: Fetch::Field(host::IDTR_BASE) },
        // Guest RFLAGS, in which bit 1 is always set, and where the guest starts.
        77 => VmcsEntry { field: guest::RFLAGS, value: Fetch::Ready(2) },
        78 => VmcsEntry { field: guest::RSP, value: Fetch::Ready(regions.guest_stack) },
        _ => VmcsEntry { field: guest::RIP, value: Fetch::Ready(regions.guest_code) },
    }
}

/// The field that is written at a position of the plan, and its value.
pub fn vmcs_entry(regions: &Regions, index: usize) -> (entry: VmcsEntry)
    requires
        index < VMCS_ENTRIES,
    ensures
        entry == vmcs_plan(*regions, index),
{
    match index {
        // Control fields, as the capability MSRs allow.
        0 => VmcsEntry {
            field: control::PINBASED_EXEC_CONTROLS,
            value: Fetch::ControlBasic { control: VmxControl::PinBased, requested: 0 },
        },
        1 => VmcsEntry {
            field: control::PRIMARY_PROCBASED_EXEC_CONTROLS,
            value: Fetch::ControlBasic { control: VmxControl::ProcessorBased, requested: 0 },
        },
        2 => VmcsEntry {
            field: control::SECONDARY_PROCBASED_EXEC_CONTROLS,
            value: Fetch::ControlBasic { control: VmxControl::ProcessorBased2, requested: 0 },
        },
        3 => VmcsEntry {
            field: control::VMEXIT_CONTROLS,
            value: Fetch::ControlBasic { control: VmxControl::VmExit, requested: IA32_VMX_EXIT_CTLS_HOST_ADDRESS_SPACE_SIZE_FLAG },
        },
        4 => VmcsEntry {
            field: control::VMENTRY_CONTROLS,
            value: Fetch::ControlBasic { control: VmxControl::VmEntry, requested: IA32_VMX_ENTRY_CTLS_IA32E_MODE_GUEST_FLAG },
        },
        // No guest exception exits, and no VPID is used.
        5 => VmcsEntry { field: control::EXCEPTION_BITMAP, value: Fetch::Ready(0) },
        6 => VmcsEntry { field: control::VPID, value: Fetch::Ready(0) },
        // Host control registers.
        7 => VmcsEntry { field: host::CR0, value: Fetch::Register(Register::Cr0) },
        8 => VmcsEntry { field: host::CR3, value: Fetch::Register(Register::Cr3) },
        9 => VmcsEntry { field: host::CR4, value: Fetch::Register(Register::Cr4) },
        // Host selectors.
        10 => VmcsEntry { field: host::ES_SELECTOR, value: Fetch::Selector(Segment::Es) },
        11 => VmcsEntry { field: host::CS_SELECTOR, value: Fetch::Selector(Segment::Cs) },
        12 => VmcsEntry { field: host::SS_SELECTOR, value: Fetch::Selector(Segment::Ss) },
        13 => VmcsEntry { field: host::DS_SELECTOR, value: Fetch::Selector(Segment::Ds) },
        14 => VmcsEntry { field: host::FS_SELECTOR, value: Fetch::Selector(Segment::Fs) },
        15 => VmcsEntry { field: host::GS_SELECTOR, value: Fetch::Selector(Segment::Gs) },
        16 => VmcsEntry { field: host::TR_SELECTOR, value: Fetch::Selector(Segment::Tr) },
        // Host base addresses.
        17 => VmcsEntry {
            field: host::FS_BASE,
            value: Fetch::Register(Register::Msr(msr::IA32_FS_BASE)),
        },
        18 => VmcsEntry {
            field: host::GS_BASE,
            value: Fetch::Register(Register::Msr(msr::IA32_GS_BASE)),
        },
        19 => VmcsEntry { field: host::TR_BASE, value: Fetch::TrGdtBase },
        20 => VmcsEntry { field: host::GDTR_BASE, value: Fetch::Register(Register::GdtBase) },
        21 => VmcsEntry { field: host::IDTR_BASE, value: Fetch::Register(Register::IdtBase) },
        // Host SYSENTER registers.
        22 => VmcsEntry {
            field: host::IA32_SYSENTER_ESP,
            value: Fetch::Register(Register::Msr(msr::SYSENTER_ESP_MSR)),
        },
        23 => VmcsEntry {
            field: host::IA32_SYSENTER_EIP,
            value: Fetch::Register(Register::Msr(msr::SYSENTER_EIP_MSR)),
        },
        24 => VmcsEntry {
            field: host::IA32_SYSENTER_CS,
            value: Fetch::Register(Register::Msr(msr::SYSENTER_CS_MSR)),
        },
        // Guest selectors, those of the host.
        25 => VmcsEntry { field: guest::ES_SELECTOR, value: Fetch::Field(host::ES_SELECTOR) },
        26 => VmcsEntry { field: guest::CS_SELECTOR, value: Fetch::Field(host::CS_SELECTOR) },
        27 => VmcsEntry { field: guest::SS_SELECTOR, value: Fetch::Field(host::SS_SELECTOR) },
        28 => VmcsEntry { field: guest::DS_SELECTOR, value: Fetch::Field(host::DS_SELECTOR) },
        29 => VmcsEntry { field: guest::FS_SELECTOR, value: Fetch::Field(host::FS_SELECTOR) },
        30 => VmcsEntry { field: guest::GS_SELECTOR, value: Fetch::Field(host::GS_SELECTOR) },
        31 => VmcsEntry { field: guest::TR_SELECTOR, value: Fetch::Field(host::TR_SELECTOR) },
        32 => VmcsEntry { field: guest::LDTR_SELECTOR, value: Fetch::Ready(0) },
        33 => VmcsEntry { field: guest::INTERRUPT_STATUS, value: Fetch::Ready(0) },
        34 => VmcsEntry { field: guest::PML_INDEX, value: Fetch::Ready(0) },
        // Guest 64-bit state. There is no linked VMCS.
        35 => VmcsEntry { field: guest::LINK_PTR_FULL, value: Fetch::Ready(u64::MAX) },
        36 => VmcsEntry { field: guest::IA32_DEBUGCTL_FULL, value: Fetch::Ready(0) },
        37 => VmcsEntry { field: guest::IA32_PAT_FULL, value: Fetch::Field(host::IA32_PAT_FULL) },
        38 => VmcsEntry { field: guest::IA32_EFER_FULL, value: Fetch::Field(host::IA32_EFER_FULL) },
        39 => VmcsEntry {
            field: guest::IA32_PERF_GLOBAL_CTRL_FULL,
            value: Fetch::Field(host::IA32_PERF_GLOBAL_CTRL_FULL),
        },
        // Guest segment limits.
        40 => VmcsEntry { field: guest::ES_LIMIT, value: Fetch::Ready(u64::MAX) },
        41 => VmcsEntry { field: guest::CS_LIMIT, value: Fetch::Ready(u64::MAX) },
        42 => VmcsEntry { field: guest::SS_LIMIT, value: Fetch::Ready(u64::MAX) },
        43 => VmcsEntry { field: guest::DS_LIMIT, value: Fetch::Ready(u64::MAX) },
        44 => VmcsEntry { field: guest::FS_LIMIT, value: Fetch::Ready(u64::MAX) },
        45 => VmcsEntry { field: guest::GS_LIMIT, value: Fetch::Ready(u64::MAX) },
        46 => VmcsEntry { field: guest::LDTR_LIMIT, value: Fetch::Ready(u64::MAX) },
        47 => VmcsEntry { field: guest::TR_LIMIT, value: Fetch::Ready(0x67) },
        48 => VmcsEntry { field: guest::GDTR_LIMIT, value: Fetch::Ready(0xffff) },
        49 => VmcsEntry { field: guest::IDTR_LIMIT, value: Fetch::Ready(0xffff) },
        // Guest access rights.
        50 => VmcsEntry {
            field: guest::ES_ACCESS_RIGHTS,
            value: Fetch::AccessRights(guest::ES_SELECTOR),
        },
        51 => VmcsEntry { field: guest::CS_ACCESS_RIGHTS, value: Fetch::Ready(CODE_SEGMENT) },
        52 => VmcsEntry { field: guest::SS_ACCESS_RIGHTS, value: Fetch::Ready(DATA_SEGMENT) },
        53 => VmcsEntry {
            field: guest::DS_ACCESS_RIGHTS,
            value: Fetch::AccessRights(guest::DS_SELECTOR),
        },
        54 => VmcsEntry {
            field: guest::FS_ACCESS_RIGHTS,
            value: Fetch::AccessRights(guest::FS_SELECTOR),
        },
        55 => VmcsEntry {
            field: guest::GS_ACCESS_RIGHTS,
            value: Fetch::AccessRights(guest::GS_SELECTOR),
        },
        56 => VmcsEntry { field: guest::LDTR_ACCESS_RIGHTS, value: Fetch::Ready(UNUSABLE_SEGMENT) },
        57 => VmcsEntry { field: guest::TR_ACCESS_RIGHTS, value: Fetch::Ready(TASK_STATE_SEGMENT) },
        // Guest non-register state.
        58 => VmcsEntry { field: guest::INTERRUPTIBILITY_STATE, value: Fetch::Ready(0) },
        59 => VmcsEntry { field: guest::ACTIVITY_STATE, value: Fetch::Ready(0) },
        60 => VmcsEntry { field: guest::VMX_PREEMPTION_TIMER_VALUE, value: Fetch::Ready(0) },
        // Guest SYSENTER registers, those of the host.
        61 => VmcsEntry {
            field: guest::IA32_SYSENTER_CS,
            value: Fetch::Field(host::IA32_SYSENTER_CS),
        },
        62 => VmcsEntry {
            field: guest::IA32_SYSENTER_ESP,
            value: Fetch::Field(host::IA32_SYSENTER_ESP),
        },
        63 => VmcsEntry {
            field: guest::IA32_SYSENTER_EIP,
            value: Fetch::Field(host::IA32_SYSENTER_EIP),
        },
        // Guest control registers, those of the host.
        64 => VmcsEntry { field: guest::CR0, value: Fetch::Field(host::CR0) },
        65 => VmcsEntry { field: guest::CR3, value: Fetch::Field(host::CR3) },
        66 => VmcsEntry { field: guest::CR4, value: Fetch::Field(host::CR4) },
        // Guest base addresses.
        67 => VmcsEntry { field: guest::ES_BASE, value: Fetch::Ready(0) },
        68 => VmcsEntry { field: guest::CS_BASE, value: Fetch::Ready(0) },
        69 => VmcsEntry { field: guest::SS_BASE, value: Fetch::Ready(0) },
        70 => VmcsEntry { field: guest::DS_BASE, value: Fetch::Ready(0) },
        71 => VmcsEntry { field: guest::FS_BASE, value: Fetch::Field(host::FS_BASE) },
        72 => VmcsEntry { field: guest::GS_BASE, value: Fetch::Field(host::GS_BASE) },
        73 => VmcsEntry { field: guest::LDTR_BASE, value: Fetch::Ready(0) },
        74 => VmcsEntry { field: guest::TR_BASE, value: Fetch::Field(host::TR_BASE) },
        75 => VmcsEntry { field: guest::GDTR_BASE, value: Fetch::Field(host::GDTR_BASE) },
        76 => VmcsEntry { field: guest::IDTR_BASE, value: Fetch::Field(host::IDTR_BASE) },
        // Guest RFLAGS, in which bit 1 is always set, and where the guest starts.
        77 => VmcsEntry { field: guest::RFLAGS, value: Fetch::Ready(2) },
        78 => VmcsEntry { field: guest::RSP, value: Fetch::Ready(regions.guest_stack) },
        _ => VmcsEntry { field: guest::RIP, value: Fetch::Ready(regions.guest_code) },
    }
}

impl Fetch {
    /// What to do next in order to write `field`.
    pub open spec fn action_spec(self, field: u32) -> Action {
        match self {
            Fetch::Ready(value) => Action::VmWrite(field, value),
            Fetch::Register(register) => Action::Read(register),
            Fetch::Selector(segment) => Action::ReadSelector(segment),
            Fetch::Field(source) => Action::VmRead(source),
            Fetch::AccessRights(selector) => Action::VmRead(selector),
            Fetch::ControlBasic { .. } => Action::Read(Register::Msr(msr::IA32_VMX_BASIC)),
            Fetch::ControlCapability { cap_msr, .. } => Action::Read(Register::Msr(cap_msr)),
            Fetch::TrGdtBase => Action::Read(Register::GdtBase),
            Fetch::TrSelector { .. } => Action::ReadSelector(Segment::Tr),
            Fetch::TrDescriptor { address } => Action::ReadDescriptor(address),
        }
    }

    /// Whether a reply answers the action. VMWRITE has to succeed, and the address of the
    /// descriptor has to exist.
    pub open spec fn accepts_spec(self, reply: Reply) -> bool {
        match self {
            Fetch::Ready(_) => reply.instruction_succeeded(),
            Fetch::Register(_) => reply is Value,
            Fetch::Selector(_) => reply is Selector,
            Fetch::Field(_) => reply is Field,
            Fetch::AccessRights(_) => reply is Field,
            Fetch::ControlBasic { .. } => reply is Value,
            Fetch::ControlCapability { .. } => reply is Value,
            Fetch::TrGdtBase => reply is Value,
            Fetch::TrSelector { gdt_base } => reply is Selector && gdt_base + reply->Selector_0
                <= u64::MAX,
            Fetch::TrDescriptor { .. } => reply is Descriptor,
        }
    }

    /// What follows the reply, or `None` once the field is written.
    pub open spec fn next_spec(self, reply: Reply) -> Option<Fetch> {
        match self {
            Fetch::Ready(_) => None,
            Fetch::Register(_) => Some(Fetch::Ready(reply->Value_0)),
            Fetch::Selector(_) => Some(Fetch::Ready(reply->Selector_0 as u64)),
            Fetch::Field(_) => Some(Fetch::Ready(field_value(reply->Field_0))),
            Fetch::AccessRights(_) => Some(Fetch::Ready(rights_of(field_value(reply->Field_0)))),
            Fetch::ControlBasic { control, requested } => Some(
                Fetch::ControlCapability {
                    cap_msr: capability_msr_of(control, reply->Value_0),
                    requested,
                },
            ),
            Fetch::ControlCapability { requested, .. } => Some(
                Fetch::Ready(effective_controls(reply->Value_0, requested as u64)),
            ),
            Fetch::TrGdtBase => Some(Fetch::TrSelector { gdt_base: reply->Value_0 }),
            Fetch::TrSelector { gdt_base } => Some(
                Fetch::TrDescriptor { address: (gdt_base + reply->Selector_0) as u64 },
            ),
            Fetch::TrDescriptor { .. } => Some(
                Fetch::Ready(segment_base(reply->Descriptor_0) as u64),
            ),
        }
    }

    /// How many more actions there are, the VMWRITE included.
    pub open spec fn remaining(self) -> nat {
        match self {
            Fetch::Ready(_) => 1,
            Fetch::Register(_) => 2,
            Fetch::Selector(_) => 2,
            Fetch::Field(_) => 2,
            Fetch::AccessRights(_) => 2,
            Fetch::ControlBasic { .. } => 3,
            Fetch::ControlCapability { .. } => 2,
            Fetch::TrGdtBase => 4,
            Fetch::TrSelector { .. } => 3,
            Fetch::TrDescriptor { .. } => 2,
        }
    }

    /// What to do next in order to write `field`.
    pub fn action(&self, field: u32) -> (action: Action)
        ensures
            action == self.action_spec(field),
    {
        match *self {
            Fetch::Ready(value) => Action::VmWrite(field, value),
            Fetch::Register(register) => Action::Read(register),
            Fetch::Selector(segment) => Action::ReadSelector(segment),
            Fetch::Field(source) => Action::VmRead(source),
            Fetch::AccessRights(selector) => Action::VmRead(selector),
            Fetch::ControlBasic { .. } => Action::Read(Register::Msr(msr::IA32_VMX_BASIC)),
            Fetch::ControlCapability { cap_msr, .. } => Action::Read(Register::Msr(cap_msr)),
            Fetch::TrGdtBase => Action::Read(Register::GdtBase),
            Fetch::TrSelector { .. } => Action::ReadSelector(Segment::Tr),
            Fetch::TrDescriptor { address } => Action::ReadDescriptor(address),
        }
    }

    /// Whether a reply answers the action.
    pub fn accepts(&self, reply: &Reply) -> (accepted: bool)
        ensures
            accepted == self.accepts_spec(*reply),
    {
        match (self, reply) {
            (Fetch::Ready(_), Reply::Instruction(Ok(_))) => true,
            (Fetch::Register(_), Reply::Value(_)) => true,
            (Fetch::Selector(_), Reply::Selector(_)) => true,
            (Fetch::Field(_), Reply::Field(_)) => true,
            (Fetch::AccessRights(_), Reply::Field(_)) => true,
            (Fetch::ControlBasic { .. }, Reply::Value(_)) => true,
            (Fetch::ControlCapability { .. }, Reply::Value(_)) => true,
            (Fetch::TrGdtBase, Reply::Value(_)) => true,
            (Fetch::TrSelector { gdt_base }, Reply::Selector(tr)) => *tr as u64 <= u64::MAX
                - *gdt_base,
            (Fetch::TrDescriptor { .. }, Reply::Descriptor(_)) => true,
            _ => false,
        }
    }

    /// What follows the reply.
    pub fn next(self, reply: Reply) -> (next: Option<Fetch>)
        requires
            self.accepts_spec(reply),
        ensures
            next == self.next_spec(reply),
            next is None <==> self is Ready,
            next matches Some(fetch) ==> fetch.remaining() == self.remaining() - 1,
    {
        match (self, reply) {
            (Fetch::Ready(_), _) => None,
            (Fetch::Register(_), Reply::Value(value)) => Some(Fetch::Ready(value)),
            (Fetch::Selector(_), Reply::Selector(selector)) => Some(Fetch::Ready(selector as u64)),
            (Fetch::Field(_), Reply::Field(result)) => Some(Fetch::Ready(vmread(result))),
            (Fetch::AccessRights(_), Reply::Field(result)) => Some(
                Fetch::Ready(access_rights(vmread(result))),
            ),
            (Fetch::ControlBasic { control, requested }, Reply::Value(vmx_basic)) => Some(
                Fetch::ControlCapability { cap_msr: capability_msr(control, vmx_basic), requested },
            ),
            (Fetch::ControlCapability { requested, .. }, Reply::Value(capabilities)) => Some(
                Fetch::Ready(adjust_vmx_control(capabilities, requested as u64)),
            ),
            (Fetch::TrGdtBase, Reply::Value(gdt_base)) => Some(Fetch::TrSelector { gdt_base }),
            (Fetch::TrSelector { gdt_base }, Reply::Selector(tr)) => Some(
                Fetch::TrDescriptor { address: tr_descriptor_address2(gdt_base, tr) },
            ),
            (Fetch::TrDescriptor { .. }, Reply::Descriptor(trd64)) => Some(
                Fetch::Ready(get_tr_base2(trd64)),
            ),
            _ => vstd::pervasive::unreached(),
        }
    }
}

/// How far filling in the VMCS has come: the position in the plan, and the value for it.
#[derive(Clone, Copy, Debug, PartialEq, Eq)]
pub struct InitVmcs {
    pub index: usize,
    pub fetch: Fetch,
}

impl InitVmcs {
    /// The position lies in the plan.
    pub open spec fn wf(self) -> bool {
        self.index < VMCS_ENTRIES
    }

    /// The beginning of a position of the plan.
    pub open spec fn at(regions: Regions, index: usize) -> InitVmcs {
        InitVmcs { index, fetch: vmcs_plan(regions, index).value }
    }

    /// What to do next.
    pub open spec fn action_spec(self, regions: Regions) -> Action {
        self.fetch.action_spec(vmcs_plan(regions, self.index).field)
    }

    /// What follows the reply, or `None` once every field is written.
    pub open spec fn next_spec(self, regions: Regions, reply: Reply) -> Option<InitVmcs> {
        match self.fetch.next_spec(reply) {
            Some(fetch) => Some(InitVmcs { index: self.index, fetch }),
            None => if self.index + 1 < VMCS_ENTRIES {
                Some(InitVmcs::at(regions, (self.index + 1) as usize))
            } else {
                None
            },
        }
    }

    /// How many more actions there are at most.
    pub open spec fn remaining(self) -> nat {
        (4 * (VMCS_ENTRIES - 1 - self.index) + self.fetch.remaining()) as nat
    }

    /// What to do next.
    pub fn action(&self, regions: &Regions) -> (action: Action)
        requires
            self.wf(),
        ensures
            action == self.action_spec(*regions),
    {
        self.fetch.action(vmcs_entry(regions, self.index).field)
    }

    /// Whether a reply answers the action.
    pub fn accepts(&self, reply: &Reply) -> (accepted: bool)
        ensures
            accepted == self.fetch.accepts_spec(*reply),
    {
        self.fetch.accepts(reply)
    }

    /// What follows the reply.
    pub fn next(self, regions: &Regions, reply: Reply) -> (next: Option<InitVmcs>)
        requires
            self.wf(),
            self.fetch.accepts_spec(reply),
        ensures
            next == self.next_spec(*regions, reply),
            next matches Some(init) ==> init.wf() && init.remaining() < self.remaining(),
    {
        match self.fetch.next(reply) {
            Some(fetch) => Some(InitVmcs { index: self.index, fetch }),
            None => if self.index + 1 < VMCS_ENTRIES {
                let index: usize = self.index + 1;
                Some(InitVmcs { index, fetch: vmcs_entry(regions, index).value })
            } else {
                None
            },
        }
    }
}

/// Starts filling in the VMCS.
pub fn init_vmcs_control(regions: &Regions) -> (init: InitVmcs)
    ensures
        init.wf(),
        init == InitVmcs::at(*regions, 0),
{
    InitVmcs { index: 0, fetch: vmcs_entry(regions, 0).value }
}

} // verus!
