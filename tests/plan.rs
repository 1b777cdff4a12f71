use vbox_setup::plan::{Action, Outcome, Provisioner, RunState, Step, StdoutPolicy};
use vbox_setup::profile::VBox;

const ID_TEXT: &str = "UUID:           3f2504e0-4f89-11d3-9a0c-0305e82c3301\nState: created\n";
const ID: &str = "3f2504e0-4f89-11d3-9a0c-0305e82c3301";

/// A stand-in for the host: what exists before the run, updated as steps
/// create things.
struct Host {
    vm: bool,
    disk: bool,
    sata: bool,
    ide: bool,
    sata_checks: usize,
    ide_checks: usize,
}

impl Host {
    fn perform(&mut self, step: Step) -> Outcome {
        let exists = |b: bool| Outcome::Exited(if b { 0 } else { 1 });
        match step {
            Step::CheckVm => exists(self.vm),
            Step::CreateVm => {
                self.vm = true;
                Outcome::Exited(0)
            }
            Step::CreateDisk => {
                self.disk = true;
                Outcome::Exited(0)
            }
            Step::CheckMedium | Step::RecheckMedium => {
                if self.disk {
                    Outcome::Output(ID_TEXT.to_string())
                } else {
                    Outcome::Output("VBoxManage: error: Could not find file\n".to_string())
                }
            }
            Step::CheckSataController => {
                self.sata_checks += 1;
                exists(self.sata)
            }
            Step::CreateSataController => {
                self.sata = true;
                Outcome::Exited(0)
            }
            Step::CheckIdeController => {
                self.ide_checks += 1;
                exists(self.ide)
            }
            Step::CreateIdeController => {
                self.ide = true;
                Outcome::Exited(0)
            }
            _ => Outcome::Exited(0),
        }
    }
}

fn fresh() -> Host {
    Host { vm: false, disk: false, sata: false, ide: false, sata_checks: 0, ide_checks: 0 }
}

fn drive(host: &mut Host) -> (Vec<Step>, Action, Provisioner) {
    let mut p = Provisioner::new(VBox::new());
    let mut steps = vec![];
    let mut step = p.pending().unwrap();
    loop {
        steps.push(step);
        let out = host.perform(step);
        match p.advance(out) {
            Action::Run(next) => step = next,
            last => return (steps, last, p),
        }
    }
}

#[test]
fn fresh_environment_runs_every_step_in_order() {
    let (steps, last, p) = drive(&mut fresh());
    assert_eq!(
        steps,
        vec![
            Step::CheckVm,
            Step::CreateVm,
            Step::EnableIoapic,
            Step::SetMemory,
            Step::SetNic1,
            Step::CheckMedium,
            Step::CreateDisk,
            Step::RecheckMedium,
            Step::CheckSataController,
            Step::CreateSataController,
            Step::AttachDisk,
            Step::CheckIdeController,
            Step::CreateIdeController,
            Step::AttachIso,
            Step::SetBootOrder,
            Step::InstallOs,
            Step::PostInstall,
        ]
    );
    assert_eq!(last, Action::Done);
    assert_eq!(p.state, RunState::Finished);
    assert_eq!(p.profile.medium_id, Some(ID.to_string()));
}

#[test]
fn existing_vm_is_not_created_again() {
    let mut host = fresh();
    host.vm = true;
    let (steps, last, _) = drive(&mut host);
    assert!(!steps.contains(&Step::CreateVm));
    assert_eq!(steps[1], Step::EnableIoapic);
    assert_eq!(last, Action::Done);
}

#[test]
fn registered_disk_is_not_created_again() {
    let mut host = fresh();
    host.disk = true;
    let (steps, last, p) = drive(&mut host);
    assert!(!steps.contains(&Step::CreateDisk));
    assert!(!steps.contains(&Step::RecheckMedium));
    assert_eq!(p.profile.medium_id, Some(ID.to_string()));
    assert_eq!(last, Action::Done);
}

#[test]
fn second_run_creates_nothing() {
    let mut host = fresh();
    drive(&mut host);
    let (steps, last, _) = drive(&mut host);
    for s in [Step::CreateVm, Step::CreateDisk, Step::CreateSataController, Step::AttachDisk, Step::CreateIdeController, Step::AttachIso] {
        assert!(!steps.contains(&s));
    }
    assert_eq!(last, Action::Done);
}

#[test]
fn controllers_are_created_at_most_once() {
    let mut host = fresh();
    let (steps, _, _) = drive(&mut host);
    assert_eq!(steps.iter().filter(|s| **s == Step::CreateSataController).count(), 1);
    assert_eq!(steps.iter().filter(|s| **s == Step::CreateIdeController).count(), 1);
    assert_eq!(host.sata_checks, 1);
    assert_eq!(host.ide_checks, 1);
}

#[test]
fn boot_order_steps_surround_install() {
    let (steps, _, _) = drive(&mut fresh());
    let boot = steps.iter().position(|s| *s == Step::SetBootOrder).unwrap();
    let install = steps.iter().position(|s| *s == Step::InstallOs).unwrap();
    let post = steps.iter().position(|s| *s == Step::PostInstall).unwrap();
    assert_eq!(boot + 1, install);
    assert_eq!(install + 1, post);
}

#[test]
fn disk_still_missing_after_creation_fails() {
    let mut p = Provisioner::new(VBox::new());
    for step in [Step::CheckVm, Step::CreateVm, Step::EnableIoapic, Step::SetMemory, Step::SetNic1] {
        assert_eq!(p.pending(), Some(step));
        p.advance(Outcome::Exited(1));
    }
    assert_eq!(p.advance(Outcome::Output(String::new())), Action::Run(Step::CreateDisk));
    assert_eq!(p.advance(Outcome::Exited(0)), Action::Run(Step::RecheckMedium));
    assert_eq!(p.advance(Outcome::Output("State: created\n".to_string())), Action::Fail(Step::RecheckMedium));
    assert_eq!(p.pending(), None);
    assert_eq!(p.advance(Outcome::Exited(0)), Action::Fail(Step::RecheckMedium));
    assert_eq!(p.profile.medium_id, None);
}

#[test]
fn finished_run_stays_finished() {
    let (_, _, mut p) = drive(&mut fresh());
    assert_eq!(p.advance(Outcome::Exited(0)), Action::Done);
    assert_eq!(p.state, RunState::Finished);
}

#[test]
fn output_policies() {
    assert_eq!(Step::CheckVm.stdout_policy(), StdoutPolicy::Discard);
    assert_eq!(Step::CreateVm.stdout_policy(), StdoutPolicy::Discard);
    assert_eq!(Step::CheckSataController.stdout_policy(), StdoutPolicy::Discard);
    assert_eq!(Step::CheckMedium.stdout_policy(), StdoutPolicy::Capture);
    assert_eq!(Step::RecheckMedium.stdout_policy(), StdoutPolicy::Capture);
    assert_eq!(Step::InstallOs.stdout_policy(), StdoutPolicy::Inherit);
}
