//! The provisioning run as a state machine: the caller performs the step that
//! the machine names, reports what came of it, and is told the next step.
use vstd::prelude::*;
use crate::medium::{extract_medium_id, medium_id_in};
use crate::profile::VBox;

verus! {

/// One invocation of `VBoxManage`, in the order in which a run may issue them.
#[derive(Clone, Copy, Debug, PartialEq, Eq, Structural)]
pub enum Step {
    CheckVm,
    CreateVm,
    EnableIoapic,
    SetMemory,
    SetNic1,
    CheckMedium,
    CreateDisk,
    RecheckMedium,
    CheckSataController,
    CreateSataController,
    AttachDisk,
    CheckIdeController,
    CreateIdeController,
    AttachIso,
    SetBootOrder,
    InstallOs,
    PostInstall,
}

/// What becomes of a step's standard output.
#[derive(Clone, Copy, Debug, PartialEq, Eq, Structural)]
pub enum StdoutPolicy {
    Discard,
    Inherit,
    Capture,
}

pub open spec fn stdout_policy_of(step: Step) -> StdoutPolicy {
    match step {
        Step::CheckVm | Step::CreateVm | Step::CheckSataController
        | Step::CheckIdeController => StdoutPolicy::Discard,
        Step::CheckMedium | Step::RecheckMedium => StdoutPolicy::Capture,
        _ => StdoutPolicy::Inherit,
    }
}

impl Step {
    /// How the step's standard output is handled: the existence checks on the
    /// VM and the controllers are silent, the medium checks are read back.
    pub fn stdout_policy(self) -> (r: StdoutPolicy)
        ensures
            r == stdout_policy_of(self),
    {
        match self {
            Step::CheckVm | Step::CreateVm | Step::CheckSataController
            | Step::CheckIdeController => StdoutPolicy::Discard,
            Step::CheckMedium | Step::RecheckMedium => StdoutPolicy::Capture,
            _ => StdoutPolicy::Inherit,
        }
    }
}


/// The position of a step in the fixed order of a run.
pub open spec fn rank(s: Step) -> nat {
    match s {
        Step::CheckVm => 0,
        Step::CreateVm => 1,
        Step::EnableIoapic => 2,
        Step::SetMemory => 3,
        Step::SetNic1 => 4,
        Step::CheckMedium => 5,
        Step::CreateDisk => 6,
        Step::RecheckMedium => 7,
        Step::CheckSataController => 8,
        Step::CreateSataController => 9,
        Step::AttachDisk => 10,
        Step::CheckIdeController => 11,
        Step::CreateIdeController => 12,
        Step::AttachIso => 13,
        Step::SetBootOrder => 14,
        Step::InstallOs => 15,
        Step::PostInstall => 16,
    }
}

/// A step that works on the registered disk image or comes after one.
pub open spec fn needs_medium(s: Step) -> bool {
    rank(s) >= rank(Step::CheckSataController)
}

/// What the caller reports once a step has run.
pub enum Outcome {
    /// The exit code of the process.
    Exited(i32),
    /// The standard output of a step whose output is captured.
    Output(String),
}

/// What the caller is to do next.
#[derive(Clone, Copy, Debug, PartialEq, Eq, Structural)]
pub enum Action {
    /// Run this step and report its outcome.
    Run(Step),
    /// The run is complete.
    Done,
    /// The run cannot go on: this step did not give what the rest needs.
    Fail(Step),
}

/// Where a run stands.
#[derive(Clone, Copy, Debug, PartialEq, Eq, Structural)]
pub enum RunState {
    /// This step has been handed out and its outcome is awaited.
    Awaiting(Step),
    Finished,
    Failed(Step),
}

/// An existence check answers yes with exit code zero.
pub open spec fn succeeded(o: Outcome) -> bool {
    o matches Outcome::Exited(c) && c == 0
}

/// The medium identifier that an outcome names, if any.
pub open spec fn medium_found(o: Outcome) -> Option<Seq<char>> {
    match o {
        Outcome::Output(t) => medium_id_in(t@),
        Outcome::Exited(_) => None,
    }
}

/// What follows `step` once it came out as `o`. Only the existence checks
/// decide; every other step is followed by the next one in the fixed order.
#[verifier::opaque]
pub open spec fn transition(step: Step, o: Outcome) -> Action {
    match step {
        Step::CheckVm => if succeeded(o) { Action::Run(Step::EnableIoapic) } else { Action::Run(Step::CreateVm) },
        Step::CreateVm => Action::Run(Step::EnableIoapic),
        Step::EnableIoapic => Action::Run(Step::SetMemory),
        Step::SetMemory => Action::Run(Step::SetNic1),
        Step::SetNic1 => Action::Run(Step::CheckMedium),
        Step::CheckMedium => if medium_found(o) is Some {
            Action::Run(Step::CheckSataController)
        } else {
            Action::Run(Step::CreateDisk)
        },
        Step::CreateDisk => Action::Run(Step::RecheckMedium),
        Step::RecheckMedium => if medium_found(o) is Some {
            Action::Run(Step::CheckSataController)
        } else {
            Action::Fail(Step::RecheckMedium)
        },
        Step::CheckSataController => if succeeded(o) {
            Action::Run(Step::CheckIdeController)
        } else {
            Action::Run(Step::CreateSataController)
        },
        Step::CreateSataController => Action::Run(Step::AttachDisk),
        Step::AttachDisk => Action::Run(Step::CheckIdeController),
        Step::CheckIdeController => if succeeded(o) {
            Action::Run(Step::SetBootOrder)
        } else {
            Action::Run(Step::CreateIdeController)
        },
        Step::CreateIdeController => Action::Run(Step::AttachIso),
        Step::AttachIso => Action::Run(Step::SetBootOrder),
        Step::SetBootOrder => Action::Run(Step::InstallOs),
        Step::InstallOs => Action::Run(Step::PostInstall),
        Step::PostInstall => Action::Done,
    }
}

pub open spec fn action_of(st: RunState, o: Outcome) -> Action {
    match st {
        RunState::Awaiting(s) => transition(s, o),
        RunState::Finished => Action::Done,
        RunState::Failed(s) => Action::Fail(s),
    }
}

pub open spec fn state_after(a: Action) -> RunState {
    match a {
        Action::Run(s) => RunState::Awaiting(s),
        Action::Done => RunState::Finished,
        Action::Fail(s) => RunState::Failed(s),
    }
}

/// The steps that follow `step` when the outcomes come in as `outs`, the
/// first of them being that of `step` itself.
pub open spec fn steps_after(step: Step, outs: Seq<Outcome>) -> Seq<Step>
    decreases outs.len(),
{
    if outs.len() == 0 {
        Seq::empty()
    } else {
        match transition(step, outs[0]) {
            Action::Run(n) => seq![n] + steps_after(n, outs.drop_first()),
            _ => Seq::empty(),
        }
    }
}

/// The steps of a whole run in which the `i`-th step handed out comes out as
/// `outs[i]`.
pub open spec fn run_steps(outs: Seq<Outcome>) -> Seq<Step> {
    seq![Step::CheckVm] + steps_after(Step::CheckVm, outs)
}

/// A provisioning run of one profile.
pub struct Provisioner {
    pub profile: VBox,
    pub state: RunState,
}

impl Provisioner {
    /// The medium identifier is recorded before any step that needs the disk
    /// image is handed out, and stays recorded to the end of the run.
    pub open spec fn wf(&self) -> bool {
        match self.state {
            RunState::Awaiting(s) => needs_medium(s) ==> self.profile.medium_id is Some,
            RunState::Finished => self.profile.medium_id is Some,
            RunState::Failed(_) => true,
        }
    }

    /// A run that starts by asking whether the VM exists.
    pub fn new(profile: VBox) -> (r: Provisioner)
        ensures
            r.profile == profile,
            r.state == RunState::Awaiting(Step::CheckVm),
            r.wf(),
    {
        Provisioner { profile, state: RunState::Awaiting(Step::CheckVm) }
    }

    /// The step whose outcome is awaited, if the run is still going.
    pub fn pending(&self) -> (r: Option<Step>)
        ensures
            match self.state {
                RunState::Awaiting(s) => r == Some(s),
                _ => r is None,
            },
    {
        match self.state {
            RunState::Awaiting(s) => Some(s),
            _ => None,
        }
    }

    /// Takes the outcome of the pending step and says what comes next. A
    /// medium check that finds the disk records its identifier in the
    /// profile. Once the run has ended, it stays as it is.
    pub fn advance(&mut self, outcome: Outcome) -> (a: Action)
        ensures
            a == action_of(old(self).state, outcome),
            old(self).state is Awaiting ==> final(self).state == state_after(a),
            !(old(self).state is Awaiting) ==> final(self).state == old(self).state,
            old(self).wf() ==> final(self).wf(),
            match (old(self).state, medium_found(outcome)) {
                (RunState::Awaiting(Step::CheckMedium), Some(id))
                | (RunState::Awaiting(Step::RecheckMedium), Some(id)) => {
                    &&& final(self).profile.medium_id matches Some(m) && m@ == id
                    &&& final(self).profile == (VBox { medium_id: final(self).profile.medium_id, ..old(self).profile })
                },
                _ => final(self).profile == old(self).profile,
            },
    {
        reveal(transition);
        let step = match self.state {
            RunState::Awaiting(s) => s,
            RunState::Finished => {
                return Action::Done;
            },
            RunState::Failed(s) => {
                return Action::Fail(s);
            },
        };
        let a = match step {
            Step::CheckVm => if exited_zero(&outcome) { Action::Run(Step::EnableIoapic) } else { Action::Run(Step::CreateVm) },
            Step::CreateVm => Action::Run(Step::EnableIoapic),
            Step::EnableIoapic => Action::Run(Step::SetMemory),
            Step::SetMemory => Action::Run(Step::SetNic1),
            Step::SetNic1 => Action::Run(Step::CheckMedium),
            Step::CheckMedium | Step::RecheckMedium => {
                match outcome_medium_id(&outcome) {
                    Some(id) => {
                        self.profile.set_medium_id(id.as_str());
                        Action::Run(Step::CheckSataController)
                    },
                    None => if step == Step::CheckMedium {
                        Action::Run(Step::CreateDisk)
                    } else {
                        Action::Fail(Step::RecheckMedium)
                    },
                }
            },
            Step::CreateDisk => Action::Run(Step::RecheckMedium),
            Step::CheckSataController => if exited_zero(&outcome) {
                Action::Run(Step::CheckIdeController)
            } else {
                Action::Run(Step::CreateSataController)
            },
            Step::CreateSataController => Action::Run(Step::AttachDisk),
            Step::AttachDisk => Action::Run(Step::CheckIdeController),
            Step::CheckIdeController => if exited_zero(&outcome) {
                Action::Run(Step::SetBootOrder)
            } else {
                Action::Run(Step::CreateIdeController)
            },
            Step::CreateIdeController => Action::Run(Step::AttachIso),
            Step::AttachIso => Action::Run(Step::SetBootOrder),
            Step::SetBootOrder => Action::Run(Step::InstallOs),
            Step::InstallOs => Action::Run(Step::PostInstall),
            Step::PostInstall => Action::Done,
        };
        self.state = match a {
            Action::Run(s) => RunState::Awaiting(s),
            Action::Done => RunState::Finished,
            Action::Fail(s) => RunState::Failed(s),
        };
        a
    }
}

fn exited_zero(o: &Outcome) -> (r: bool)
    ensures
        r == succeeded(*o),
{
    match o {
        Outcome::Exited(c) => *c == 0,
        Outcome::Output(_) => false,
    }
}

fn outcome_medium_id(o: &Outcome) -> (r: Option<String>)
    ensures
        match r {
            Some(id) => medium_found(*o) == Some(id@),
            None => medium_found(*o) is None,
        },
{
    match o {
        Outcome::Exited(_) => None,
        Outcome::Output(t) => extract_medium_id(t.as_str()),
    }
}

} // verus!
