//! The bring-up from end to end, one action at a time.

use vstd::prelude::*;
use crate::arch::cpuid_has_vmx;
use crate::enable::{
    classify_vmx, enable_vmcs, enable_vmx, support_of, EnableVmcs, EnableVmx, VmxSupport,
};
use crate::init::{init_vmcs_control, InitVmcs};
use crate::launch::{launch_vm, LaunchNext, LaunchReport, LaunchVm};
use crate::machine::{Action, Regions, Reply};

verus! {

/// The part of the bring-up that is under way.
#[derive(Clone, Copy, Debug, PartialEq, Eq)]
pub enum Stage {
    /// VMX operation is being entered.
    EnableVmx(EnableVmx),
    /// The VMCS is being made current.
    EnableVmcs(EnableVmcs),
    /// The VMCS is being filled in.
    InitVmcs(InitVmcs),
    /// The guest is being launched.
    Launch(LaunchVm),
    /// VMX operation is to be left.
    Vmxoff(LaunchReport),
    /// Nothing is left to do.
    Finished(LaunchReport),
}

/// One bring-up.
///
/// Whoever drives it repeats three things until [`Session::action`] gives `None`: perform the
/// action, check the reply with [`Session::accepts`], and go on with [`Session::step`]. A reply
/// that is not accepted tells of a VMX instruction that failed, or of a descriptor table at the
/// very end of the address space, and there is no going on after it.
#[derive(Clone, Copy, Debug, PartialEq, Eq)]
pub struct Session {
    pub regions: Regions,
    pub support: VmxSupport,
    pub stage: Stage,
}

impl Stage {
    /// How many more actions there are at most.
    pub open spec fn remaining(self) -> nat {
        match self {
            Stage::EnableVmx(enable) => 325 + enable.remaining(),
            Stage::EnableVmcs(enable) => 322 + enable.remaining(),
            Stage::InitVmcs(init) => 3 + init.remaining(),
            Stage::Launch(launch) => 1 + launch.remaining(),
            Stage::Vmxoff(_) => 1,
            Stage::Finished(_) => 0,
        }
    }

    /// What follows a reply. Each part of the bring-up ends in the next one.
    pub open spec fn next_spec(self, regions: Regions, reply: Reply) -> Stage {
        match self {
            Stage::EnableVmx(enable) => match enable.next_spec(reply) {
                Some(enable) => Stage::EnableVmx(enable),
                None => Stage::EnableVmcs(EnableVmcs::ReadRevision),
            },
            Stage::EnableVmcs(enable) => match enable.next_spec(reply) {
                Some(enable) => Stage::EnableVmcs(enable),
                None => Stage::InitVmcs(InitVmcs::at(regions, 0)),
            },
            Stage::InitVmcs(init) => match init.next_spec(regions, reply) {
                Some(init) => Stage::InitVmcs(init),
                None => Stage::Launch(LaunchVm::RunGuest),
            },
            Stage::Launch(launch) => match launch.next_spec(reply) {
                LaunchNext::Continue(launch) => Stage::Launch(launch),
                LaunchNext::Report(report) => Stage::Vmxoff(report),
            },
            Stage::Vmxoff(report) => Stage::Finished(report),
            Stage::Finished(report) => Stage::Finished(report),
        }
    }
}

impl Session {
    /// The regions can be addressed, and the position in the plan of the VMCS lies in it.
    pub open spec fn wf(self) -> bool {
        &&& self.regions.wf()
        &&& self.stage matches Stage::InitVmcs(init) ==> init.wf()
    }

    /// How a bring-up begins. Where the processor has no VMX, entering VMX operation is left out,
    /// and only that.
    pub open spec fn begin_spec(regions: Regions, support: VmxSupport) -> Session {
        Session {
            regions,
            support,
            stage: if support is Supported {
                Stage::EnableVmx(EnableVmx::ReadCr4)
            } else {
                Stage::EnableVmcs(EnableVmcs::ReadRevision)
            },
        }
    }

    /// What to do next, if anything.
    pub open spec fn action_spec(self) -> Option<Action> {
        match self.stage {
            Stage::EnableVmx(enable) => Some(enable.action_spec(self.regions)),
            Stage::EnableVmcs(enable) => Some(enable.action_spec(self.regions)),
            Stage::InitVmcs(init) => Some(init.action_spec(self.regions)),
            Stage::Launch(launch) => Some(launch.action_spec()),
            Stage::Vmxoff(_) => Some(Action::Vmxoff),
            Stage::Finished(_) => None,
        }
    }

    /// Whether a reply answers the action, and leaves a way to go on.
    pub open spec fn accepts_spec(self, reply: Reply) -> bool {
        match self.stage {
            Stage::EnableVmx(enable) => enable.accepts_spec(reply),
            Stage::EnableVmcs(enable) => enable.accepts_spec(reply),
            Stage::InitVmcs(init) => init.fetch.accepts_spec(reply),
            Stage::Launch(launch) => launch.accepts_spec(reply),
            Stage::Vmxoff(_) => reply is Done,
            Stage::Finished(_) => false,
        }
    }

    /// What came of launching the guest, once the bring-up has got that far.
    pub open spec fn report_spec(self) -> Option<LaunchReport> {
        match self.stage {
            Stage::Vmxoff(report) => Some(report),
            Stage::Finished(report) => Some(report),
            _ => None,
        }
    }

    /// The bring-up after the reply.
    pub open spec fn step_spec(self, reply: Reply) -> Session {
        Session { stage: self.stage.next_spec(self.regions, reply), ..self }
    }

    /// Begins a bring-up on a processor of which it is known whether it has VMX.
    pub fn begin(regions: Regions, support: VmxSupport) -> (session: Session)
        requires
            regions.wf(),
        ensures
            session.wf(),
            session == Session::begin_spec(regions, support),
    {
        let stage = match enable_vmx(support) {
            Some(enable) => Stage::EnableVmx(enable),
            None => Stage::EnableVmcs(enable_vmcs()),
        };
        Session { regions, support, stage }
    }

    /// What to do next, or `None` when the bring-up is finished.
    pub fn action(&self) -> (action: Option<Action>)
        requires
            self.wf(),
        ensures
            action == self.action_spec(),
    {
        match &self.stage {
            Stage::EnableVmx(enable) => Some(enable.action(&self.regions)),
            Stage::EnableVmcs(enable) => Some(enable.action(&self.regions)),
            Stage::InitVmcs(init) => Some(init.action(&self.regions)),
            Stage::Launch(launch) => Some(launch.action()),
            Stage::Vmxoff(_) => Some(Action::Vmxoff),
            Stage::Finished(_) => None,
        }
    }

    /// Whether a reply answers the action, and leaves a way to go on.
    pub fn accepts(&self, reply: &Reply) -> (accepted: bool)
        ensures
            accepted == self.accepts_spec(*reply),
    {
        match &self.stage {
            Stage::EnableVmx(enable) => enable.accepts(reply),
            Stage::EnableVmcs(enable) => enable.accepts(reply),
            Stage::InitVmcs(init) => init.accepts(reply),
            Stage::Launch(launch) => launch.accepts(reply),
            Stage::Vmxoff(_) => match reply {
                Reply::Done => true,
                _ => false,
            },
            Stage::Finished(_) => false,
        }
    }

    /// Goes on after the reply. Every step brings the end nearer.
    pub fn step(self, reply: Reply) -> (next: Session)
        requires
            self.wf(),
            self.accepts_spec(reply),
        ensures
            next.wf(),
            next == self.step_spec(reply),
            next.stage.remaining() < self.stage.remaining(),
    {
        let regions: Regions = self.regions;
        let stage = match self.stage {
            Stage::EnableVmx(enable) => match enable.next(reply) {
                Some(enable) => Stage::EnableVmx(enable),
                None => Stage::EnableVmcs(enable_vmcs()),
            },
            Stage::EnableVmcs(enable) => match enable.next(reply) {
                Some(enable) => Stage::EnableVmcs(enable),
                None => Stage::InitVmcs(init_vmcs_control(&regions)),
            },
            Stage::InitVmcs(init) => match init.next(&regions, reply) {
                Some(init) => Stage::InitVmcs(init),
                None => Stage::Launch(launch_vm()),
            },
            Stage::Launch(launch) => match launch.next(reply) {
                LaunchNext::Continue(launch) => Stage::Launch(launch),
                LaunchNext::Report(report) => Stage::Vmxoff(report),
            },
            Stage::Vmxoff(report) => Stage::Finished(report),
            Stage::Finished(report) => Stage::Finished(report),
        };
        Session { regions, support: self.support, stage }
    }

    /// What came of launching the guest, once the bring-up has got that far.
    pub fn report(&self) -> (report: Option<LaunchReport>)
        ensures
            report == self.report_spec(),
            report == (match self.stage {
                Stage::Vmxoff(report) => Some(report),
                Stage::Finished(report) => Some(report),
                _ => None,
            }),
    {
        match self.stage {
            Stage::Vmxoff(report) => Some(report),
            Stage::Finished(report) => Some(report),
            _ => None,
        }
    }
}

/// Begins a bring-up on the processor that runs this.
///
/// Whether that processor has VMX is up to CPUID; [`Session::begin`] says what follows for each
/// answer.
pub fn start_hypervisor(regions: Regions) -> (session: Session)
    requires
        regions.wf(),
    ensures
        session.wf(),
        exists|vmx: Option<bool>|
            session == Session::begin_spec(regions, #[trigger] support_of(vmx)),
{
    let vmx: Option<bool> = cpuid_has_vmx();
    let support: VmxSupport = classify_vmx(vmx);
    let session: Session = Session::begin(regions, support);
    assert(session == Session::begin_spec(regions, support_of(vmx)));
    session
}

} // verus!
