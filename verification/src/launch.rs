//! Launching the guest, and what is learnt from it.

use vstd::prelude::*;
use crate::arch::{rflags_contains, FLAGS_CF, FLAGS_ZF};
use crate::machine::{field_value, vmread, Action, Reply, VmFail};
use crate::vmcs::ro;

verus! {

/// How a VMX instruction ended, as the flags register tells.
#[derive(Clone, Copy, Debug, PartialEq, Eq)]
pub enum VmOutcome {
    /// Zero flag set: the VM-instruction error field of the current VMCS says why.
    FailValid,
    /// Carry flag set: there was no current VMCS.
    FailInvalid,
    /// Neither flag set.
    Succeed,
}

/// The outcome that a value of the flags register stands for. The zero flag goes first.
pub open spec fn vm_outcome(flags: u64) -> VmOutcome {
    if flags & FLAGS_ZF == FLAGS_ZF {
        VmOutcome::FailValid
    } else if flags & FLAGS_CF == FLAGS_CF {
        VmOutcome::FailInvalid
    } else {
        VmOutcome::Succeed
    }
}

/// Reads off the flags register how the launch ended.
pub fn vm_succeed(flags: u64) -> (outcome: VmOutcome)
    ensures
        outcome == vm_outcome(flags),
{
    if rflags_contains(flags, FLAGS_ZF) {
        VmOutcome::FailValid
    } else if rflags_contains(flags, FLAGS_CF) {
        VmOutcome::FailInvalid
    } else {
        VmOutcome::Succeed
    }
}

/// The basic exit reason: the low 16 bits of what VMREAD gave back of the exit-reason field, and
/// so 0 where VMREAD failed.
pub fn vm_exit_reason(exit_reason: Result<u64, VmFail>) -> (reason: u32)
    ensures
        reason == field_value(exit_reason) % 0x1_0000,
{
    let value: u64 = vmread(exit_reason);
    let mut reason: u32 = value as u32;
    reason &= 0xffff;
    assert((value as u32) & 0xffff == value % 0x1_0000) by (bit_vector);
    reason
}

/// What came of launching the guest.
#[derive(Clone, Copy, Debug, PartialEq, Eq)]
pub enum LaunchReport {
    /// The launch failed, with this VM-instruction error.
    FailValid { error: u64 },
    /// The launch failed for want of a current VMCS.
    FailInvalid,
    /// The guest ran, and exited for this reason.
    Exited { reason: u32 },
}

impl LaunchReport {
    /// Whether the guest ran.
    pub open spec fn succeeded_spec(self) -> bool {
        self is Exited
    }

    /// Whether the guest ran.
    pub fn succeeded(&self) -> (ran: bool)
        ensures
            ran == self.succeeded_spec(),
            ran == (*self is Exited),
    {
        match self {
            LaunchReport::FailValid { .. } => false,
            LaunchReport::FailInvalid => false,
            LaunchReport::Exited { .. } => true,
        }
    }
}

/// How far the launch has come.
#[derive(Clone, Copy, Debug, PartialEq, Eq)]
pub enum LaunchVm {
    /// The guest is to be run.
    RunGuest,
    /// The launch failed, and the VM-instruction error is to be read.
    ReadInstructionError,
    /// The guest exited, and the reason is to be read.
    ReadExitReason,
}

/// What follows a reply to the launch: another action, or the report.
#[derive(Clone, Copy, Debug, PartialEq, Eq)]
pub enum LaunchNext {
    Continue(LaunchVm),
    Report(LaunchReport),
}

impl LaunchVm {
    /// What to do next.
    pub open spec fn action_spec(self) -> Action {
        match self {
            LaunchVm::RunGuest => Action::RunGuest,
            LaunchVm::ReadInstructionError => Action::VmRead(ro::VM_INSTRUCTION_ERROR),
            LaunchVm::ReadExitReason => Action::VmRead(ro::EXIT_REASON),
        }
    }

    /// Whether a reply answers the action.
    pub open spec fn accepts_spec(self, reply: Reply) -> bool {
        match self {
            LaunchVm::RunGuest => reply is Value,
            LaunchVm::ReadInstructionError => reply is Field,
            LaunchVm::ReadExitReason => reply is Field,
        }
    }

    /// What follows the reply. Where the flags tell of a valid failure its number is read first,
    /// and where they tell of success the exit reason is.
    pub open spec fn next_spec(self, reply: Reply) -> LaunchNext {
        match self {
            LaunchVm::RunGuest => match vm_outcome(reply->Value_0) {
                VmOutcome::FailValid => LaunchNext::Continue(LaunchVm::ReadInstructionError),
                VmOutcome::FailInvalid => LaunchNext::Report(LaunchReport::FailInvalid),
                VmOutcome::Succeed => LaunchNext::Continue(LaunchVm::ReadExitReason),
            },
            LaunchVm::ReadInstructionError => LaunchNext::Report(
                LaunchReport::FailValid { error: field_value(reply->Field_0) },
            ),
            LaunchVm::ReadExitReason => LaunchNext::Report(
                LaunchReport::Exited { reason: (field_value(reply->Field_0) % 0x1_0000) as u32 },
            ),
        }
    }

    /// How many more actions there are at most.
    pub open spec fn remaining(self) -> nat {
        match self {
            LaunchVm::RunGuest => 2,
            LaunchVm::ReadInstructionError => 1,
            LaunchVm::ReadExitReason => 1,
        }
    }

    /// What to do next.
    pub fn action(&self) -> (action: Action)
        ensures
            action == self.action_spec(),
    {
        match self {
            LaunchVm::RunGuest => Action::RunGuest,
            LaunchVm::ReadInstructionError => Action::VmRead(ro::VM_INSTRUCTION_ERROR),
            LaunchVm::ReadExitReason => Action::VmRead(ro::EXIT_REASON),
        }
    }

    /// Whether a reply answers the action.
    pub fn accepts(&self, reply: &Reply) -> (accepted: bool)
        ensures
            accepted == self.accepts_spec(*reply),
    {
        match (self, reply) {
            (LaunchVm::RunGuest, Reply::Value(_)) => true,
            (LaunchVm::ReadInstructionError, Reply::Field(_)) => true,
            (LaunchVm::ReadExitReason, Reply::Field(_)) => true,
            _ => false,
        }
    }

    /// What follows the reply.
    pub fn next(self, reply: Reply) -> (next: LaunchNext)
        requires
            self.accepts_spec(reply),
        ensures
            next == self.next_spec(reply),
            next matches LaunchNext::Continue(launch) ==> launch.remaining() < self.remaining(),
    {
        match (self, reply) {
            (LaunchVm::ReadInstructionError, Reply::Field(error)) => LaunchNext::Report(
                LaunchReport::FailValid { error: vmread(error) },
            ),
            (LaunchVm::ReadExitReason, Reply::Field(exit_reason)) => LaunchNext::Report(
                LaunchReport::Exited { reason: vm_exit_reason(exit_reason) },
            ),
            (_, Reply::Value(flags)) => match vm_succeed(flags) {
                VmOutcome::FailValid => LaunchNext::Continue(LaunchVm::ReadInstructionError),
                VmOutcome::FailInvalid => LaunchNext::Report(LaunchReport::FailInvalid),
                VmOutcome::Succeed => LaunchNext::Continue(LaunchVm::ReadExitReason),
            },
            _ => vstd::pervasive::unreached(),
        }
    }
}

/// Starts the launch of the guest.
pub fn launch_vm() -> (launch: LaunchVm)
    ensures
        launch == LaunchVm::RunGuest,
{
    LaunchVm::RunGuest
}

} // verus!
