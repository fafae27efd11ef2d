//! Entering VMX operation, and making a VMCS current.

use vstd::prelude::*;
use crate::adjust::{
    adjust_cr0, adjust_feature_control_msr, cr0_for_vmx, cr4_vmx_enable, feature_control_enabled,
    feature_control_locked, revision_id,
};
use crate::arch::CR4_VMXE;
use crate::machine::{physical_address, Action, Regions, Register, Reply, KERNEL_CODE_BASE};
use crate::msr;

verus! {

/// What CPUID says of VMX.
#[derive(Clone, Copy, Debug, PartialEq, Eq)]
pub enum VmxSupport {
    /// The processor has VMX.
    Supported,
    /// The processor has no VMX.
    Unsupported,
    /// The processor has no feature information.
    Unknown,
}

/// What the answer of CPUID means: no answer, or whether the VMX bit is set.
pub open spec fn support_of(vmx: Option<bool>) -> VmxSupport {
    match vmx {
        Some(true) => VmxSupport::Supported,
        Some(false) => VmxSupport::Unsupported,
        None => VmxSupport::Unknown,
    }
}

/// What the answer of CPUID means.
pub fn classify_vmx(vmx: Option<bool>) -> (support: VmxSupport)
    ensures
        support == support_of(vmx),
{
    match vmx {
        Some(has_vmx) => if has_vmx {
            VmxSupport::Supported
        } else {
            VmxSupport::Unsupported
        },
        None => VmxSupport::Unknown,
    }
}

/// How far entering VMX operation has come.
#[derive(Clone, Copy, Debug, PartialEq, Eq)]
pub enum EnableVmx {
    /// CR4 is to be read.
    ReadCr4,
    /// CR4 is to be written, with VMX enabled.
    WriteCr4 { cr4: u64 },
    /// `IA32_FEATURE_CONTROL` is to be read.
    ReadFeatureControl,
    /// `IA32_FEATURE_CONTROL` was not locked, and is to be written.
    WriteFeatureControl { feature_control: u64 },
    /// `IA32_VMX_CR0_FIXED0` is to be read.
    ReadFixed0,
    /// `IA32_VMX_CR0_FIXED1` is to be read.
    ReadFixed1 { fixed0: u64 },
    /// CR0 is to be read.
    ReadCr0 { fixed0: u64, fixed1: u64 },
    /// CR0 is to be written, adjusted.
    WriteCr0 { cr0: u64 },
    /// `IA32_VMX_BASIC` is to be read for the revision identifier.
    ReadRevision,
    /// VMXON is to be executed.
    Vmxon { revision: u32 },
}

impl EnableVmx {
    /// What to do next.
    pub open spec fn action_spec(self, regions: Regions) -> Action {
        match self {
            EnableVmx::ReadCr4 => Action::Read(Register::Cr4Flags),
            EnableVmx::WriteCr4 { cr4 } => Action::WriteCr4Flags(cr4),
            EnableVmx::ReadFeatureControl => Action::Read(Register::Msr(msr::IA32_FEATURE_CONTROL)),
            EnableVmx::WriteFeatureControl { feature_control } => Action::WriteMsr(
                msr::IA32_FEATURE_CONTROL,
                feature_control,
            ),
            EnableVmx::ReadFixed0 => Action::Read(Register::Msr(msr::IA32_VMX_CR0_FIXED0)),
            EnableVmx::ReadFixed1 { .. } => Action::Read(Register::Msr(msr::IA32_VMX_CR0_FIXED1)),
            EnableVmx::ReadCr0 { .. } => Action::Read(Register::Cr0),
            EnableVmx::WriteCr0 { cr0 } => Action::WriteCr0(cr0),
            EnableVmx::ReadRevision => Action::Read(Register::Msr(msr::IA32_VMX_BASIC)),
            EnableVmx::Vmxon { revision } => Action::Vmxon {
                address: (regions.vmxon - KERNEL_CODE_BASE) as u64,
                revision,
            },
        }
    }

    /// Whether a reply answers the action. VMXON has to succeed.
    pub open spec fn accepts_spec(self, reply: Reply) -> bool {
        match self {
            EnableVmx::ReadCr4 => reply is Value,
            EnableVmx::WriteCr4 { .. } => reply is Done,
            EnableVmx::ReadFeatureControl => reply is Value,
            EnableVmx::WriteFeatureControl { .. } => reply is Done,
            EnableVmx::ReadFixed0 => reply is Value,
            EnableVmx::ReadFixed1 { .. } => reply is Value,
            EnableVmx::ReadCr0 { .. } => reply is Value,
            EnableVmx::WriteCr0 { .. } => reply is Done,
            EnableVmx::ReadRevision => reply is Value,
            EnableVmx::Vmxon { .. } => reply.instruction_succeeded(),
        }
    }

    /// What follows the reply, or `None` once the processor is in VMX operation.
    pub open spec fn next_spec(self, reply: Reply) -> Option<EnableVmx> {
        match self {
            EnableVmx::ReadCr4 => Some(EnableVmx::WriteCr4 { cr4: reply->Value_0 | CR4_VMXE }),
            EnableVmx::WriteCr4 { .. } => Some(EnableVmx::ReadFeatureControl),
            EnableVmx::ReadFeatureControl => if feature_control_locked(reply->Value_0) {
                Some(EnableVmx::ReadFixed0)
            } else {
                Some(
                    EnableVmx::WriteFeatureControl {
                        feature_control: feature_control_enabled(reply->Value_0),
                    },
                )
            },
            EnableVmx::WriteFeatureControl { .. } => Some(EnableVmx::ReadFixed0),
            EnableVmx::ReadFixed0 => Some(EnableVmx::ReadFixed1 { fixed0: reply->Value_0 }),
            EnableVmx::ReadFixed1 { fixed0 } => Some(
                EnableVmx::ReadCr0 { fixed0, fixed1: reply->Value_0 },
            ),
            EnableVmx::ReadCr0 { fixed0, fixed1 } => Some(
                EnableVmx::WriteCr0 { cr0: cr0_for_vmx(reply->Value_0, fixed0, fixed1) },
            ),
            EnableVmx::WriteCr0 { .. } => Some(EnableVmx::ReadRevision),
            EnableVmx::ReadRevision => Some(
                EnableVmx::Vmxon { revision: (reply->Value_0 % 0x1_0000_0000) as u32 },
            ),
            EnableVmx::Vmxon { .. } => None,
        }
    }

    /// How many more actions there are at most.
    pub open spec fn remaining(self) -> nat {
        match self {
            EnableVmx::ReadCr4 => 10,
            EnableVmx::WriteCr4 { .. } => 9,
            EnableVmx::ReadFeatureControl => 8,
            EnableVmx::WriteFeatureControl { .. } => 7,
            EnableVmx::ReadFixed0 => 6,
            EnableVmx::ReadFixed1 { .. } => 5,
            EnableVmx::ReadCr0 { .. } => 4,
            EnableVmx::WriteCr0 { .. } => 3,
            EnableVmx::ReadRevision => 2,
            EnableVmx::Vmxon { .. } => 1,
        }
    }

    /// What to do next.
    pub fn action(&self, regions: &Regions) -> (action: Action)
        requires
            regions.wf(),
        ensures
            action == self.action_spec(*regions),
    {
        match *self {
            EnableVmx::ReadCr4 => Action::Read(Register::Cr4Flags),
            EnableVmx::WriteCr4 { cr4 } => Action::WriteCr4Flags(cr4),
            EnableVmx::ReadFeatureControl => Action::Read(Register::Msr(msr::IA32_FEATURE_CONTROL)),
            EnableVmx::WriteFeatureControl { feature_control } => Action::WriteMsr(
                msr::IA32_FEATURE_CONTROL,
                feature_control,
            ),
            EnableVmx::ReadFixed0 => Action::Read(Register::Msr(msr::IA32_VMX_CR0_FIXED0)),
            EnableVmx::ReadFixed1 { .. } => Action::Read(Register::Msr(msr::IA32_VMX_CR0_FIXED1)),
            EnableVmx::ReadCr0 { .. } => Action::Read(Register::Cr0),
            EnableVmx::WriteCr0 { cr0 } => Action::WriteCr0(cr0),
            EnableVmx::ReadRevision => Action::Read(Register::Msr(msr::IA32_VMX_BASIC)),
            EnableVmx::Vmxon { revision } => invoke_vmxon(regions, revision),
        }
    }

    /// Whether a reply answers the action.
    pub fn accepts(&self, reply: &Reply) -> (accepted: bool)
        ensures
            accepted == self.accepts_spec(*reply),
    {
        match (self, reply) {
            (EnableVmx::ReadCr4, Reply::Value(_)) => true,
            (EnableVmx::WriteCr4 { .. }, Reply::Done) => true,
            (EnableVmx::ReadFeatureControl, Reply::Value(_)) => true,
            (EnableVmx::WriteFeatureControl { .. }, Reply::Done) => true,
            (EnableVmx::ReadFixed0, Reply::Value(_)) => true,
            (EnableVmx::ReadFixed1 { .. }, Reply::Value(_)) => true,
            (EnableVmx::ReadCr0 { .. }, Reply::Value(_)) => true,
            (EnableVmx::WriteCr0 { .. }, Reply::Done) => true,
            (EnableVmx::ReadRevision, Reply::Value(_)) => true,
            (EnableVmx::Vmxon { .. }, Reply::Instruction(Ok(_))) => true,
            _ => false,
        }
    }

    /// What follows the reply.
    pub fn next(self, reply: Reply) -> (next: Option<EnableVmx>)
        requires
            self.accepts_spec(reply),
        ensures
            next == self.next_spec(reply),
            next matches Some(enable) ==> enable.remaining() < self.remaining(),
    {
        match (self, reply) {
            (EnableVmx::ReadCr4, Reply::Value(cr4)) => Some(
                EnableVmx::WriteCr4 { cr4: cr4_vmx_enable(cr4) },
            ),
            (EnableVmx::WriteCr4 { .. }, _) => Some(EnableVmx::ReadFeatureControl),
            (EnableVmx::ReadFeatureControl, Reply::Value(value)) => match adjust_feature_control_msr(
                value,
            ) {
                Some(feature_control) => Some(EnableVmx::WriteFeatureControl { feature_control }),
                None => Some(EnableVmx::ReadFixed0),
            },
            (EnableVmx::WriteFeatureControl { .. }, _) => Some(EnableVmx::ReadFixed0),
            (EnableVmx::ReadFixed0, Reply::Value(fixed0)) => Some(EnableVmx::ReadFixed1 { fixed0 }),
            (EnableVmx::ReadFixed1 { fixed0 }, Reply::Value(fixed1)) => Some(
                EnableVmx::ReadCr0 { fixed0, fixed1 },
            ),
            (EnableVmx::ReadCr0 { fixed0, fixed1 }, Reply::Value(cr0)) => Some(
                EnableVmx::WriteCr0 { cr0: adjust_cr0(cr0, fixed0, fixed1) },
            ),
            (EnableVmx::WriteCr0 { .. }, _) => Some(EnableVmx::ReadRevision),
            (EnableVmx::ReadRevision, Reply::Value(vmx_basic)) => Some(
                EnableVmx::Vmxon { revision: revision_id(vmx_basic) },
            ),
            (EnableVmx::Vmxon { .. }, _) => None,
            _ => vstd::pervasive::unreached(),
        }
    }
}

/// How entering VMX operation starts, if it does.
pub open spec fn enable_vmx_spec(support: VmxSupport) -> Option<EnableVmx> {
    if support is Supported {
        Some(EnableVmx::ReadCr4)
    } else {
        None
    }
}

/// Starts entering VMX operation, or leaves the processor as it is where it has no VMX.
pub fn enable_vmx(support: VmxSupport) -> (enable: Option<EnableVmx>)
    ensures
        enable == enable_vmx_spec(support),
        enable == (if support is Supported {
            Some(EnableVmx::ReadCr4)
        } else {
            None::<EnableVmx>
        }),
{
    match support {
        VmxSupport::Supported => Some(EnableVmx::ReadCr4),
        VmxSupport::Unsupported => None,
        VmxSupport::Unknown => None,
    }
}

/// The VMXON instruction on the physical address of its region.
pub fn invoke_vmxon(regions: &Regions, revision: u32) -> (action: Action)
    requires
        regions.wf(),
    ensures
        action == (Action::Vmxon { address: (regions.vmxon - KERNEL_CODE_BASE) as u64, revision }),
{
    Action::Vmxon { address: physical_address(regions.vmxon), revision }
}

/// How far making the VMCS current has come.
#[derive(Clone, Copy, Debug, PartialEq, Eq)]
pub enum EnableVmcs {
    /// `IA32_VMX_BASIC` is to be read for the revision identifier.
    ReadRevision,
    /// VMCLEAR is to be executed.
    Vmclear { revision: u32 },
    /// VMPTRLD is to be executed.
    Vmptrld,
}

impl EnableVmcs {
    /// What to do next.
    pub open spec fn action_spec(self, regions: Regions) -> Action {
        match self {
            EnableVmcs::ReadRevision => Action::Read(Register::Msr(msr::IA32_VMX_BASIC)),
            EnableVmcs::Vmclear { revision } => Action::Vmclear {
                address: (regions.vmcs - KERNEL_CODE_BASE) as u64,
                revision,
            },
            EnableVmcs::Vmptrld => Action::Vmptrld {
                address: (regions.vmcs - KERNEL_CODE_BASE) as u64,
            },
        }
    }

    /// Whether a reply answers the action. VMCLEAR and VMPTRLD have to succeed.
    pub open spec fn accepts_spec(self, reply: Reply) -> bool {
        match self {
            EnableVmcs::ReadRevision => reply is Value,
            EnableVmcs::Vmclear { .. } => reply.instruction_succeeded(),
            EnableVmcs::Vmptrld => reply.instruction_succeeded(),
        }
    }

    /// What follows the reply, or `None` once the VMCS is current.
    pub open spec fn next_spec(self, reply: Reply) -> Option<EnableVmcs> {
        match self {
            EnableVmcs::ReadRevision => Some(
                EnableVmcs::Vmclear { revision: (reply->Value_0 % 0x1_0000_0000) as u32 },
            ),
            EnableVmcs::Vmclear { .. } => Some(EnableVmcs::Vmptrld),
            EnableVmcs::Vmptrld => None,
        }
    }

    /// How many more actions there are.
    pub open spec fn remaining(self) -> nat {
        match self {
            EnableVmcs::ReadRevision => 3,
            EnableVmcs::Vmclear { .. } => 2,
            EnableVmcs::Vmptrld => 1,
        }
    }

    /// What to do next.
    pub fn action(&self, regions: &Regions) -> (action: Action)
        requires
            regions.wf(),
        ensures
            action == self.action_spec(*regions),
    {
        match *self {
            EnableVmcs::ReadRevision => Action::Read(Register::Msr(msr::IA32_VMX_BASIC)),
            EnableVmcs::Vmclear { revision } => Action::Vmclear {
                address: physical_address(regions.vmcs),
                revision,
            },
            EnableVmcs::Vmptrld => Action::Vmptrld { address: physical_address(regions.vmcs) },
        }
    }

    /// Whether a reply answers the action.
    pub fn accepts(&self, reply: &Reply) -> (accepted: bool)
        ensures
            accepted == self.accepts_spec(*reply),
    {
        match (self, reply) {
            (EnableVmcs::ReadRevision, Reply::Value(_)) => true,
            (EnableVmcs::Vmclear { .. }, Reply::Instruction(Ok(_))) => true,
            (EnableVmcs::Vmptrld, Reply::Instruction(Ok(_))) => true,
            _ => false,
        }
    }

    /// What follows the reply.
    pub fn next(self, reply: Reply) -> (next: Option<EnableVmcs>)
        requires
            self.accepts_spec(reply),
        ensures
            next == self.next_spec(reply),
            next matches Some(enable) ==> enable.remaining() < self.remaining(),
    {
        match (self, reply) {
            (EnableVmcs::ReadRevision, Reply::Value(vmx_basic)) => Some(
                EnableVmcs::Vmclear { revision: revision_id(vmx_basic) },
            ),
            (EnableVmcs::Vmclear { .. }, _) => Some(EnableVmcs::Vmptrld),
            (EnableVmcs::Vmptrld, _) => None,
            _ => vstd::pervasive::unreached(),
        }
    }
}

/// Starts making the VMCS current.
pub fn enable_vmcs() -> (enable: EnableVmcs)
    ensures
        enable == EnableVmcs::ReadRevision,
{
    EnableVmcs::ReadRevision
}

} // verus!
