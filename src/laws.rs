//! What holds of every provisioning run, whatever the outcomes of its steps.
use vstd::prelude::*;
use crate::plan::{medium_found, rank, run_steps, steps_after, succeeded, transition, Action, Outcome, Step};
use crate::profile::{boot_args, command_of, decimal, VBox};

verus! {

proof fn lemma_transition_moves_forward(s: Step, o: Outcome)
    ensures
        transition(s, o) matches Action::Run(n) ==> rank(n) > rank(s),
{
    reveal(transition);
}

/// The one step that can lead to each of the steps named here.
proof fn lemma_predecessors(s: Step, o: Outcome)
    ensures
        transition(s, o) == Action::Run(Step::InstallOs) ==> s == Step::SetBootOrder,
        transition(s, o) == Action::Run(Step::PostInstall) ==> s == Step::InstallOs,
        transition(s, o) == Action::Run(Step::CreateVm) ==> s == Step::CheckVm && !succeeded(o),
        transition(s, o) == Action::Run(Step::CreateDisk) ==> s == Step::CheckMedium
            && medium_found(o) is None,
        s == Step::CheckVm && succeeded(o) ==> transition(s, o) == Action::Run(Step::EnableIoapic),
        s == Step::CheckMedium && medium_found(o) is Some ==> transition(s, o) == Action::Run(
            Step::CheckSataController,
        ),
        s == Step::CreateDisk ==> transition(s, o) == Action::Run(Step::RecheckMedium),
{
    reveal(transition);
}

proof fn lemma_steps_after_ordered(s: Step, outs: Seq<Outcome>)
    ensures
        steps_after(s, outs).len() <= outs.len(),
        forall|i: int| 0 <= i < steps_after(s, outs).len() ==> rank(#[trigger] steps_after(s, outs)[i]) > rank(s),
        forall|i: int, j: int|
            0 <= i < j < steps_after(s, outs).len() ==> rank(#[trigger] steps_after(s, outs)[i])
                < rank(#[trigger] steps_after(s, outs)[j]),
        forall|i: int| 0 <= i < steps_after(s, outs).len() ==> transition(
            if i == 0 { s } else { steps_after(s, outs)[i - 1] },
            #[trigger] outs[i],
        ) == Action::Run(steps_after(s, outs)[i]),
    decreases outs.len(),
{
    if outs.len() > 0 {
        lemma_transition_moves_forward(s, outs[0]);
        if let Action::Run(n) = transition(s, outs[0]) {
            let rest = outs.drop_first();
            lemma_steps_after_ordered(n, rest);
            let t = steps_after(s, outs);
            assert(t == seq![n] + steps_after(n, rest));
            assert forall|i: int| 0 <= i < t.len() implies transition(
                if i == 0 { s } else { t[i - 1] },
                #[trigger] outs[i],
            ) == Action::Run(t[i]) by {
                if i > 0 {
                    assert(t[i] == steps_after(n, rest)[i - 1]);
                    assert(outs[i] == rest[i - 1]);
                    if i > 1 {
                        assert(t[i - 1] == steps_after(n, rest)[i - 2]);
                    }
                }
            }
            assert forall|i: int, j: int| 0 <= i < j < t.len() implies rank(#[trigger] t[i]) < rank(
                #[trigger] t[j],
            ) by {
                assert(t[j] == steps_after(n, rest)[j - 1]);
                if i > 0 {
                    assert(t[i] == steps_after(n, rest)[i - 1]);
                }
            }
            assert forall|i: int| 0 <= i < t.len() implies rank(#[trigger] t[i]) > rank(s) by {
                if i > 0 {
                    assert(t[i] == steps_after(n, rest)[i - 1]);
                }
            }
        }
    }
}

/// Along a run the steps come in their fixed order, each one after the step
/// whose outcome led to it.
proof fn lemma_run_ordered(outs: Seq<Outcome>)
    ensures
        run_steps(outs)[0] == Step::CheckVm,
        1 <= run_steps(outs).len() <= outs.len() + 1,
        forall|i: int, j: int|
            0 <= i < j < run_steps(outs).len() ==> rank(#[trigger] run_steps(outs)[i])
                < rank(#[trigger] run_steps(outs)[j]),
        forall|i: int| 0 <= i && i + 1 < run_steps(outs).len() ==> transition(
            run_steps(outs)[i],
            #[trigger] outs[i],
        ) == Action::Run(run_steps(outs)[i + 1]),
{
    let t = steps_after(Step::CheckVm, outs);
    let r = run_steps(outs);
    lemma_steps_after_ordered(Step::CheckVm, outs);
    assert forall|i: int, j: int| 0 <= i < j < r.len() implies rank(#[trigger] r[i]) < rank(
        #[trigger] r[j],
    ) by {
        assert(r[j] == t[j - 1]);
        if i > 0 {
            assert(r[i] == t[i - 1]);
        }
    }
    assert forall|i: int| 0 <= i && i + 1 < r.len() implies transition(r[i], #[trigger] outs[i])
        == Action::Run(r[i + 1]) by {
        assert(r[i + 1] == t[i]);
        if i > 0 {
            assert(r[i] == t[i - 1]);
        }
    }
}

proof fn lemma_run_link(outs: Seq<Outcome>, i: int)
    requires
        0 < i < run_steps(outs).len(),
    ensures
        i - 1 < outs.len(),
        transition(run_steps(outs)[i - 1], outs[i - 1]) == Action::Run(run_steps(outs)[i]),
{
    lemma_run_ordered(outs);
    assert(outs[i - 1] == outs[i - 1]);
}

proof fn lemma_run_rank(outs: Seq<Outcome>, i: int, j: int)
    requires
        0 <= i < j < run_steps(outs).len(),
    ensures
        rank(run_steps(outs)[i]) < rank(run_steps(outs)[j]),
{
    lemma_run_ordered(outs);
}

/// A step that every completed run issues, whatever the existence checks say.
pub open spec fn mandatory(s: Step) -> bool {
    match s {
        Step::CheckVm | Step::EnableIoapic | Step::SetMemory | Step::SetNic1 | Step::CheckMedium
        | Step::CheckSataController | Step::CheckIdeController | Step::SetBootOrder
        | Step::InstallOs | Step::PostInstall => true,
        _ => false,
    }
}

proof fn lemma_rank_injective(a: Step, b: Step)
    ensures
        rank(a) == rank(b) ==> a == b,
{
}

/// No transition jumps over a mandatory step.
proof fn lemma_no_skip(s: Step, o: Outcome, x: Step)
    ensures
        mandatory(x) && rank(s) < rank(x) ==> (transition(s, o) matches Action::Run(n) ==> rank(n)
            <= rank(x)),
{
    reveal(transition);
}

proof fn lemma_reaches(outs: Seq<Outcome>, k: int, x: Step)
    requires
        0 <= k < run_steps(outs).len(),
        mandatory(x),
        rank(x) <= rank(run_steps(outs)[k]),
    ensures
        exists|i: int| 0 <= i <= k && run_steps(outs)[i] == x,
    decreases k,
{
    let r = run_steps(outs);
    lemma_rank_injective(x, r[k]);
    if rank(x) < rank(r[k]) {
        assert(r[0] == Step::CheckVm);
        if k == 0 {
            assert(false);
        }
        lemma_run_link(outs, k);
        lemma_no_skip(r[k - 1], outs[k - 1], x);
        lemma_reaches(outs, k - 1, x);
        let i = choose|i: int| 0 <= i <= k - 1 && r[i] == x;
        assert(0 <= i <= k && r[i] == x);
    } else {
        assert(r[k] == x);
    }
}

/// A run that gets as far as the post-install step has issued every
/// mandatory step, each of them once.
pub proof fn completed_run_has_every_mandatory_step(outs: Seq<Outcome>)
    requires
        run_steps(outs).contains(Step::PostInstall),
    ensures
        forall|x: Step| mandatory(x) ==> #[trigger] run_steps(outs).contains(x),
        forall|x: Step, i: int, j: int|
            mandatory(x) && 0 <= i < run_steps(outs).len() && 0 <= j < run_steps(outs).len()
                && run_steps(outs)[i] == x && run_steps(outs)[j] == x ==> i == j,
{
    let r = run_steps(outs);
    let k = choose|k: int| 0 <= k < r.len() && r[k] == Step::PostInstall;
    assert forall|x: Step| mandatory(x) implies #[trigger] r.contains(x) by {
        lemma_reaches(outs, k, x);
        let i = choose|i: int| 0 <= i <= k && r[i] == x;
        assert(r[i] == x);
    }
    steps_run_at_most_once(outs);
    assert forall|x: Step, i: int, j: int|
        mandatory(x) && 0 <= i < r.len() && 0 <= j < r.len() && r[i] == x && r[j] == x implies i == j by {
        if i < j {
            assert(r[i] != r[j]);
        } else if j < i {
            assert(r[j] != r[i]);
        }
    }
}

proof fn lemma_create_disk_at(outs: Seq<Outcome>, i: int)
    requires
        0 <= i < run_steps(outs).len(),
        run_steps(outs)[i] == Step::CreateDisk,
    ensures
        i > 0,
        run_steps(outs)[i - 1] == Step::CheckMedium,
        medium_found(outs[i - 1]) is None,
        i + 1 < run_steps(outs).len() ==> run_steps(outs)[i + 1] == Step::RecheckMedium,
{
    let r = run_steps(outs);
    assert(r[0] == Step::CheckVm);
    lemma_run_link(outs, i);
    lemma_predecessors(r[i - 1], outs[i - 1]);
    if i + 1 < r.len() {
        lemma_run_link(outs, i + 1);
        lemma_predecessors(r[i], outs[i]);
    }
}

/// A disk is created only right after a medium check that did not find it,
/// and is followed at once by a second check that reads its identifier.
pub proof fn disk_creation_is_rechecked(outs: Seq<Outcome>)
    ensures
        run_steps(outs)[0] != Step::CreateDisk,
        forall|i: int|
            0 <= i && i + 1 < run_steps(outs).len() && run_steps(outs)[i + 1] == Step::CreateDisk
                ==> {
                &&& run_steps(outs)[i] == Step::CheckMedium
                &&& medium_found(#[trigger] outs[i]) is None
                &&& i + 2 < run_steps(outs).len() ==> run_steps(outs)[i + 2] == Step::RecheckMedium
            },
{
    lemma_run_ordered(outs);
    assert forall|i: int|
        0 <= i && i + 1 < run_steps(outs).len() && run_steps(outs)[i + 1] == Step::CreateDisk implies {
        &&& run_steps(outs)[i] == Step::CheckMedium
        &&& medium_found(#[trigger] outs[i]) is None
        &&& i + 2 < run_steps(outs).len() ==> run_steps(outs)[i + 2] == Step::RecheckMedium
    } by {
        lemma_create_disk_at(outs, i + 1);
    }
}

/// No step runs twice in one run, however the existence checks come out: in
/// particular each storage controller is created at most once.
pub proof fn steps_run_at_most_once(outs: Seq<Outcome>)
    ensures
        forall|i: int, j: int|
            0 <= i < j < run_steps(outs).len() ==> #[trigger] run_steps(outs)[i] != #[trigger] run_steps(outs)[j],
        forall|i: int, j: int|
            0 <= i < run_steps(outs).len() && 0 <= j < run_steps(outs).len()
                && #[trigger] run_steps(outs)[i] == Step::CreateSataController
                && #[trigger] run_steps(outs)[j] == Step::CreateSataController ==> i == j,
        forall|i: int, j: int|
            0 <= i < run_steps(outs).len() && 0 <= j < run_steps(outs).len()
                && #[trigger] run_steps(outs)[i] == Step::CreateIdeController
                && #[trigger] run_steps(outs)[j] == Step::CreateIdeController ==> i == j,
{
    let r = run_steps(outs);
    assert forall|i: int, j: int| 0 <= i < r.len() && 0 <= j < r.len() && #[trigger] r[i] == #[trigger] r[j] implies i == j by {
        if i < j {
            lemma_run_rank(outs, i, j);
        } else if j < i {
            lemma_run_rank(outs, j, i);
        }
    }
}

/// When the VM already exists, the run never creates it.
pub proof fn existing_vm_is_not_created(outs: Seq<Outcome>)
    requires
        outs.len() > 0,
        succeeded(outs[0]),
    ensures
        !run_steps(outs).contains(Step::CreateVm),
{
    let r = run_steps(outs);
    lemma_run_ordered(outs);
    if r.contains(Step::CreateVm) {
        let k = choose|k: int| 0 <= k < r.len() && r[k] == Step::CreateVm;
        lemma_run_link(outs, k);
        lemma_predecessors(r[k - 1], outs[k - 1]);
        if k - 1 > 0 {
            lemma_run_rank(outs, 0, k - 1);
        }
    }
}

/// When the medium check finds the disk image, the run never creates a disk,
/// and goes on to the storage controllers.
pub proof fn registered_disk_is_not_created(outs: Seq<Outcome>, i: int)
    requires
        0 <= i < run_steps(outs).len(),
        i < outs.len(),
        run_steps(outs)[i] == Step::CheckMedium,
        medium_found(outs[i]) is Some,
    ensures
        !run_steps(outs).contains(Step::CreateDisk),
        i + 1 < run_steps(outs).len() ==> run_steps(outs)[i + 1] == Step::CheckSataController,
{
    let r = run_steps(outs);
    lemma_run_ordered(outs);
    lemma_predecessors(r[i], outs[i]);
    if i + 1 < r.len() {
        lemma_run_link(outs, i + 1);
    }
    if r.contains(Step::CreateDisk) {
        let k = choose|k: int| 0 <= k < r.len() && r[k] == Step::CreateDisk;
        if k > 0 {
            lemma_run_link(outs, k);
            lemma_predecessors(r[k - 1], outs[k - 1]);
            if k - 1 < i {
                lemma_run_rank(outs, k - 1, i);
            } else if i < k - 1 {
                lemma_run_rank(outs, i, k - 1);
            }
        }
    }
}

proof fn lemma_boot_args(v: VBox)
    ensures
        command_of(v, Step::SetBootOrder).subrange(2, 10) == boot_args("dvd"@, "disk"@),
        command_of(v, Step::PostInstall).subrange(2, 10) == boot_args("disk"@, "dvd"@),
{
    let pre = seq!["modifyvm"@, v.name@];
    let tail = seq!["--cpus"@, decimal(v.cpus as nat)];
    assert((pre + boot_args("dvd"@, "disk"@) + tail).subrange(2, 10) =~= boot_args("dvd"@, "disk"@));
    assert((pre + boot_args("disk"@, "dvd"@)).subrange(2, 10) =~= boot_args("disk"@, "dvd"@));
}

/// The optical drive is made the first boot device right before the
/// unattended install, and the disk right after it.
pub proof fn boot_order_brackets_install(outs: Seq<Outcome>, v: VBox)
    ensures
        forall|i: int|
            0 <= i < run_steps(outs).len() && #[trigger] run_steps(outs)[i] == Step::InstallOs
                ==> i > 0 && run_steps(outs)[i - 1] == Step::SetBootOrder,
        forall|i: int|
            0 <= i < run_steps(outs).len() && #[trigger] run_steps(outs)[i] == Step::PostInstall
                ==> i > 0 && run_steps(outs)[i - 1] == Step::InstallOs,
        command_of(v, Step::SetBootOrder).subrange(2, 10) == boot_args("dvd"@, "disk"@),
        command_of(v, Step::PostInstall).subrange(2, 10) == boot_args("disk"@, "dvd"@),
{
    let r = run_steps(outs);
    assert forall|i: int| 0 <= i < r.len() && #[trigger] r[i] == Step::InstallOs implies i > 0
        && r[i - 1] == Step::SetBootOrder by {
        if i > 0 {
            lemma_run_link(outs, i);
            lemma_predecessors(r[i - 1], outs[i - 1]);
        }
    }
    assert forall|i: int| 0 <= i < r.len() && #[trigger] r[i] == Step::PostInstall implies i > 0
        && r[i - 1] == Step::InstallOs by {
        if i > 0 {
            lemma_run_link(outs, i);
            lemma_predecessors(r[i - 1], outs[i - 1]);
        }
    }
    lemma_boot_args(v);
}

/// In a fresh environment, with no VM, no disk and no controllers, the run
/// creates each of them and then installs, in this order.
pub proof fn fresh_environment_run(outs: Seq<Outcome>)
    requires
        outs.len() == 17,
        !succeeded(outs[0]),
        medium_found(outs[5]) is None,
        medium_found(outs[7]) is Some,
        !succeeded(outs[8]),
        !succeeded(outs[11]),
    ensures
        run_steps(outs) == seq![
            Step::CheckVm, Step::CreateVm, Step::EnableIoapic, Step::SetMemory, Step::SetNic1,
            Step::CheckMedium, Step::CreateDisk, Step::RecheckMedium, Step::CheckSataController,
            Step::CreateSataController, Step::AttachDisk, Step::CheckIdeController,
            Step::CreateIdeController, Step::AttachIso, Step::SetBootOrder, Step::InstallOs,
            Step::PostInstall,
        ],
        transition(Step::PostInstall, outs[16]) == Action::Done,
{
    reveal(transition);
    reveal_with_fuel(steps_after, 18);
    assert(run_steps(outs) =~= seq![
        Step::CheckVm, Step::CreateVm, Step::EnableIoapic, Step::SetMemory, Step::SetNic1,
        Step::CheckMedium, Step::CreateDisk, Step::RecheckMedium, Step::CheckSataController,
        Step::CreateSataController, Step::AttachDisk, Step::CheckIdeController,
        Step::CreateIdeController, Step::AttachIso, Step::SetBootOrder, Step::InstallOs,
        Step::PostInstall,
    ]);
}

} // verus!
