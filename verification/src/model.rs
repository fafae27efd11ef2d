//! A processor as the bring-up sees it, and what it becomes when a bring-up runs on it.
//!
//! The laws of the crate speak of this model. No executable code uses it.

use vstd::prelude::*;
use crate::adjust::{
    capability_msr_of, effective_controls, IA32_FEATURE_CONTROL_ENABLE_VMX_OUTSIDE_SMX_FLAG,
    IA32_FEATURE_CONTROL_LOCK_BIT_FLAG,
};
use crate::arch::{CR0_FLAGS, CR4_VMXE};
use crate::init::{rights_of, vmcs_plan, Fetch};
use crate::machine::{field_value, Action, Descriptor64, Regions, Register, Reply, Segment, VmFail};
use crate::msr;
use crate::segment::segment_base;
use crate::session::Session;

verus! {

/// The bits of CR4 that [`Register::Cr4Flags`] reads and [`Action::WriteCr4Flags`] writes: 0 to 14
/// and 16 to 24.
pub const CR4_FLAGS: u64 = 0x01ff_7fff;

/// The bits of CR4 that [`Register::Cr4`] reads: 0 to 14, 16 to 18 and 20 to 22.
pub const CR4_NAMED: u64 = 0x0077_7fff;

/// The state of a processor that has VMX, as far as the bring-up reads it or writes it.
pub struct Processor {
    /// CR0, every bit of it.
    pub cr0: u64,
    /// CR3.
    pub cr3: u64,
    /// CR4, every bit of it.
    pub cr4: u64,
    /// The base address of the global descriptor table.
    pub gdt_base: u64,
    /// The base address of the interrupt descriptor table.
    pub idt_base: u64,
    /// The model-specific registers.
    pub msrs: Map<u32, u64>,
    /// The selectors of the segment registers and of the task register.
    pub selectors: Map<Segment, u16>,
    /// The descriptors in memory, by linear address.
    pub descriptors: Map<u64, Descriptor64>,
    /// The physical address and the revision identifier of the VMXON region, in VMX operation.
    pub vmxon: Option<(u64, u32)>,
    /// The physical address and the revision identifier of the VMCS that was cleared last.
    pub cleared: Option<(u64, u32)>,
    /// The physical address of the current VMCS.
    pub current: Option<u64>,
    /// The fields of the VMCS. A field that is not here cannot be read.
    pub vmcs: Map<u32, u64>,
    /// The flags register after the guest has run.
    pub guest_flags: u64,
}

/// What a field of the VMCS keeps of a value: as much as its width holds.
pub open spec fn fit(field: u32, value: u64) -> u64 {
    let width = (field / 0x2000) % 4;
    if width == 0 {
        value % 0x1_0000
    } else if width == 2 {
        value % 0x1_0000_0000
    } else {
        value
    }
}

/// How a VMX instruction ends that succeeds on a condition.
pub open spec fn instruction(allowed: bool) -> Reply {
    Reply::Instruction(
        if allowed {
            Ok(())
        } else {
            Err(VmFail::Invalid)
        },
    )
}

/// What VMREAD gives back of a field of the current VMCS.
pub open spec fn vmread_of(vmcs: Map<u32, u64>, field: u32) -> Result<u64, VmFail> {
    if vmcs.contains_key(field) {
        Ok(vmcs[field])
    } else {
        Err(VmFail::Valid)
    }
}

impl Processor {
    /// Every field of the VMCS holds what its width allows.
    pub open spec fn wf(self) -> bool {
        forall|field: u32| #[trigger]
            self.vmcs.contains_key(field) ==> fit(field, self.vmcs[field]) == self.vmcs[field]
    }

    /// The value of a register.
    pub open spec fn register(self, register: Register) -> u64 {
        match register {
            Register::Cr0 => self.cr0 & CR0_FLAGS,
            Register::Cr3 => self.cr3,
            Register::Cr4 => self.cr4 & CR4_NAMED,
            Register::Cr4Flags => self.cr4 & CR4_FLAGS,
            Register::GdtBase => self.gdt_base,
            Register::IdtBase => self.idt_base,
            Register::Msr(address) => self.msrs[address],
        }
    }

    /// The descriptor of the task-state segment lies inside the address space.
    pub open spec fn has_task_state(self) -> bool {
        self.gdt_base + self.selectors[Segment::Tr] <= u64::MAX
    }

    /// The descriptor of the task-state segment.
    pub open spec fn task_state(self) -> Descriptor64 {
        self.descriptors[(self.gdt_base + self.selectors[Segment::Tr]) as u64]
    }

    /// The VMCS revision identifier of the processor, which has 31 bits.
    pub open spec fn revision(self) -> int {
        self.msrs[msr::IA32_VMX_BASIC] as int % 0x8000_0000
    }

    /// VMXON on a region succeeds: VMX is enabled in CR4 and in `IA32_FEATURE_CONTROL`, CR0 has the
    /// bits that are fixed, and the region is a page that begins with the revision identifier.
    /// What VMX demands of the other bits of CR4 is taken to hold.
    pub open spec fn vmxon_allowed(self, address: u64, revision: u32) -> bool {
        let fixed0 = self.msrs[msr::IA32_VMX_CR0_FIXED0];
        let fixed1 = self.msrs[msr::IA32_VMX_CR0_FIXED1];
        let feature_control = self.msrs[msr::IA32_FEATURE_CONTROL];
        &&& self.vmxon is None
        &&& self.cr4 & CR4_VMXE == CR4_VMXE
        &&& feature_control & IA32_FEATURE_CONTROL_LOCK_BIT_FLAG
            == IA32_FEATURE_CONTROL_LOCK_BIT_FLAG
        &&& feature_control & IA32_FEATURE_CONTROL_ENABLE_VMX_OUTSIDE_SMX_FLAG
            == IA32_FEATURE_CONTROL_ENABLE_VMX_OUTSIDE_SMX_FLAG
        &&& self.cr0 & fixed0 == fixed0
        &&& self.cr0 & fixed1 == self.cr0
        &&& address % 0x1000 == 0
        &&& revision == self.revision()
    }

    /// VMCLEAR on a region succeeds: the processor is in VMX operation, and the region is a page
    /// other than the VMXON region.
    pub open spec fn vmclear_allowed(self, address: u64) -> bool {
        self.vmxon matches Some(vmxon) && address % 0x1000 == 0 && address != vmxon.0
    }

    /// VMPTRLD on a region succeeds: VMCLEAR does, and the region begins with the revision
    /// identifier.
    pub open spec fn vmptrld_allowed(self, address: u64) -> bool {
        &&& self.vmclear_allowed(address)
        &&& self.cleared matches Some(cleared) && cleared.0 == address && cleared.1
            == self.revision()
    }

    /// VMREAD and VMWRITE have a VMCS to work on.
    pub open spec fn has_vmcs(self) -> bool {
        self.vmxon is Some && self.current is Some
    }

    /// What the processor answers to an action.
    pub open spec fn reply(self, action: Action) -> Reply {
        match action {
            Action::Read(register) => Reply::Value(self.register(register)),
            Action::WriteMsr(_, _) => Reply::Done,
            Action::WriteCr0(_) => Reply::Done,
            Action::WriteCr4Flags(_) => Reply::Done,
            Action::ReadSelector(segment) => Reply::Selector(self.selectors[segment]),
            Action::ReadDescriptor(address) => Reply::Descriptor(self.descriptors[address]),
            Action::Vmxon { address, revision } => instruction(
                self.vmxon_allowed(address, revision),
            ),
            Action::Vmclear { address, .. } => instruction(self.vmclear_allowed(address)),
            Action::Vmptrld { address } => instruction(self.vmptrld_allowed(address)),
            Action::VmRead(field) => Reply::Field(
                if self.has_vmcs() {
                    vmread_of(self.vmcs, field)
                } else {
                    Err(VmFail::Invalid)
                },
            ),
            Action::VmWrite(_, _) => instruction(self.has_vmcs()),
            Action::RunGuest => Reply::Value(self.guest_flags),
            Action::Vmxoff => Reply::Done,
        }
    }

    /// What an action makes of the processor, where it succeeds. Running the guest leaves alone what is modelled.
    pub open spec fn after(self, action: Action) -> Processor {
        match action {
            Action::Read(_) => self,
            Action::WriteMsr(address, value) => Processor {
                msrs: self.msrs.insert(address, value),
                ..self
            },
            Action::WriteCr0(value) => Processor { cr0: value, ..self },
            Action::WriteCr4Flags(value) => Processor {
                cr4: (self.cr4 & !CR4_FLAGS) | value,
                ..self
            },
            Action::ReadSelector(_) => self,
            Action::ReadDescriptor(_) => self,
            Action::Vmxon { address, revision } => Processor {
                vmxon: Some((address, revision)),
                ..self
            },
            Action::Vmclear { address, revision } => Processor {
                cleared: Some((address, revision)),
                ..self
            },
            Action::Vmptrld { address } => Processor { current: Some(address), ..self },
            Action::VmRead(_) => self,
            Action::VmWrite(field, value) => Processor {
                vmcs: self.vmcs.insert(field, fit(field, value)),
                ..self
            },
            Action::RunGuest => self,
            Action::Vmxoff => Processor { vmxon: None, ..self },
        }
    }

    /// The value that a field gets when it is fetched from this processor.
    pub open spec fn fetched(self, fetch: Fetch) -> u64 {
        match fetch {
            Fetch::Ready(value) => value,
            Fetch::Register(register) => self.register(register),
            Fetch::Selector(segment) => self.selectors[segment] as u64,
            Fetch::Field(source) => field_value(vmread_of(self.vmcs, source)),
            Fetch::AccessRights(selector) => rights_of(
                field_value(vmread_of(self.vmcs, selector)),
            ),
            Fetch::ControlBasic { control, requested } => effective_controls(
                self.msrs[capability_msr_of(control, self.msrs[msr::IA32_VMX_BASIC])],
                requested as u64,
            ),
            Fetch::ControlCapability { cap_msr, requested } => effective_controls(
                self.msrs[cap_msr],
                requested as u64,
            ),
            Fetch::TrGdtBase => segment_base(self.task_state()) as u64,
            Fetch::TrSelector { gdt_base } => segment_base(
                self.descriptors[(gdt_base + self.selectors[Segment::Tr]) as u64],
            ) as u64,
            Fetch::TrDescriptor { address } => segment_base(self.descriptors[address]) as u64,
        }
    }

    /// The processor after the first `count` fields of the plan have been written.
    pub open spec fn filled(self, regions: Regions, count: nat) -> Processor
        decreases count,
    {
        if count == 0 {
            self
        } else {
            let before = self.filled(regions, (count - 1) as nat);
            let entry = vmcs_plan(regions, (count - 1) as usize);
            before.after(Action::VmWrite(entry.field, before.fetched(entry.value)))
        }
    }
}

/// A bring-up and the processor that it runs on.
pub struct Run {
    pub session: Session,
    pub processor: Processor,
}

impl Run {
    /// One action, performed and answered.
    pub open spec fn tick(self) -> Run {
        match self.session.action_spec() {
            Some(action) => Run {
                session: self.session.step_spec(self.processor.reply(action)),
                processor: self.processor.after(action),
            },
            None => self,
        }
    }

    /// The answer to the next action is one that the bring-up goes on after.
    pub open spec fn can_tick(self) -> bool {
        self.session.action_spec() matches Some(action) && self.session.accepts_spec(
            self.processor.reply(action),
        )
    }

    /// Several actions.
    pub open spec fn ticks(self, count: nat) -> Run
        decreases count,
    {
        if count == 0 {
            self
        } else {
            self.tick().ticks((count - 1) as nat)
        }
    }

    /// Every one of so many actions is answered so that the bring-up goes on.
    pub open spec fn can_ticks(self, count: nat) -> bool
        decreases count,
    {
        count == 0 || (self.can_tick() && self.tick().can_ticks((count - 1) as nat))
    }

    /// The run comes by another state of it, in so many actions.
    pub open spec fn takes(self, count: nat, later: Run) -> bool {
        self.can_ticks(count) && self.ticks(count) == later
    }

    /// The run comes by another state of it.
    pub open spec fn reaches(self, later: Run) -> bool {
        exists|count: nat| #[trigger] self.takes(count, later)
    }
}

} // verus!
