//! The crash-safe swap of the running executable, as a small state
//! machine over the three filesystem slots it touches: the executable's
//! own path, the `.exe.old` backup path, and the `.updated` staging path.
//!
//! The embedding application walks the plan returned by `replace_plan`,
//! performs each step's filesystem operation, and aborts after the first
//! failed fatal step. The transition function here is the model of those
//! operations; the safety law states what every possible run leaves at
//! the executable's path.

use vstd::prelude::*;

verus! {

/// What a filesystem slot can hold in the replace model.
#[derive(Clone, Copy, Debug, PartialEq, Eq, Structural)]
pub enum FileImage {
    /// The binary the program is running from.
    Original,
    /// The fully copied downloaded binary.
    Updated,
    /// The leftovers of an interrupted copy.
    Partial,
}

/// The three slots the swap touches.
#[derive(Clone, Copy, Debug, PartialEq, Eq, Structural)]
pub struct ReplaceFs {
    /// The executable's own path.
    pub current: Option<FileImage>,
    /// The sibling backup path kept for manual rollback.
    pub old: Option<FileImage>,
    /// The sibling staging path the download is copied to.
    pub staged: Option<FileImage>,
}

/// The steps of the swap, in execution order.
#[derive(Clone, Copy, Debug, PartialEq, Eq, Structural)]
pub enum ReplaceStep {
    /// Restore the execute permission bits on the downloaded file.
    RestorePermissions,
    /// Best-effort removal of a stale backup; failure is ignored.
    RemoveOld,
    /// Rename the running executable to the backup path — the point of
    /// no return.
    BackupCurrent,
    /// Copy the downloaded file to the staging path.
    StageCopy,
    /// Rename the staging path onto the executable's path.
    Activate,
}

/// How one step, succeeding or failing, changes the three slots. A failed
/// rename leaves both paths as they were; a failed copy can leave a
/// partial file at the staging path, and only there.
pub open spec fn spec_apply(s: ReplaceFs, step: ReplaceStep, ok: bool) -> ReplaceFs {
    match step {
        ReplaceStep::RestorePermissions => s,
        ReplaceStep::RemoveOld => {
            if ok {
                ReplaceFs { old: None, ..s }
            } else {
                s
            }
        },
        ReplaceStep::BackupCurrent => {
            if ok {
                ReplaceFs { current: None, old: s.current, ..s }
            } else {
                s
            }
        },
        ReplaceStep::StageCopy => {
            if ok {
                ReplaceFs { staged: Some(FileImage::Updated), ..s }
            } else {
                ReplaceFs { staged: Some(FileImage::Partial), ..s }
            }
        },
        ReplaceStep::Activate => {
            if ok {
                ReplaceFs { current: s.staged, staged: None, ..s }
            } else {
                s
            }
        },
    }
}

/// Whether a step's failure aborts the run. Only the removal of a stale
/// backup is best-effort.
pub open spec fn spec_step_fatal(step: ReplaceStep) -> bool {
    !(step is RemoveOld)
}

/// The plan of the swap: the five steps in execution order.
pub open spec fn spec_plan() -> Seq<ReplaceStep> {
    seq![
        ReplaceStep::RestorePermissions,
        ReplaceStep::RemoveOld,
        ReplaceStep::BackupCurrent,
        ReplaceStep::StageCopy,
        ReplaceStep::Activate,
    ]
}

/// The state a run of the given steps leaves, when the step at position
/// `k` succeeds exactly when `oks[k]`, and the run stops after the first
/// failed fatal step.
pub open spec fn spec_run(s: ReplaceFs, steps: Seq<ReplaceStep>, oks: Seq<bool>) -> ReplaceFs
    decreases steps.len(),
{
    if steps.len() == 0 || oks.len() == 0 {
        s
    } else {
        let s1 = spec_apply(s, steps.first(), oks.first());
        if !oks.first() && spec_step_fatal(steps.first()) {
            s1
        } else {
            spec_run(s1, steps.drop_first(), oks.drop_first())
        }
    }
}

/// One step of the model, as executable code, for walking the plan.
pub fn apply_step(s: ReplaceFs, step: ReplaceStep, ok: bool) -> (r: ReplaceFs)
    ensures
        r == spec_apply(s, step, ok),
{
    match step {
        ReplaceStep::RestorePermissions => s,
        ReplaceStep::RemoveOld => {
            if ok {
                ReplaceFs { old: None, ..s }
            } else {
                s
            }
        },
        ReplaceStep::BackupCurrent => {
            if ok {
                ReplaceFs { current: None, old: s.current, ..s }
            } else {
                s
            }
        },
        ReplaceStep::StageCopy => {
            if ok {
                ReplaceFs { staged: Some(FileImage::Updated), ..s }
            } else {
                ReplaceFs { staged: Some(FileImage::Partial), ..s }
            }
        },
        ReplaceStep::Activate => {
            if ok {
                ReplaceFs { current: s.staged, staged: None, ..s }
            } else {
                s
            }
        },
    }
}

/// Whether a step's failure aborts the run.
pub fn step_is_fatal(step: ReplaceStep) -> (r: bool)
    ensures
        r == spec_step_fatal(step),
{
    !matches!(step, ReplaceStep::RemoveOld)
}

/// The five steps of the swap, in the order to perform them.
pub fn replace_plan() -> (r: Vec<ReplaceStep>)
    ensures
        r@ == spec_plan(),
{
    let mut v: Vec<ReplaceStep> = Vec::new();
    v.push(ReplaceStep::RestorePermissions);
    v.push(ReplaceStep::RemoveOld);
    v.push(ReplaceStep::BackupCurrent);
    v.push(ReplaceStep::StageCopy);
    v.push(ReplaceStep::Activate);
    proof {
        assert(v@ =~= spec_plan());
    }
    v
}

/// Runs the whole plan in the model with the given step outcomes,
/// stopping after the first failed fatal step.
pub fn run_replace(init: ReplaceFs, outcomes: &Vec<bool>) -> (r: ReplaceFs)
    requires
        outcomes@.len() == spec_plan().len(),
    ensures
        r == spec_run(init, spec_plan(), outcomes@),
{
    let plan = replace_plan();
    let mut s = init;
    let mut i: usize = 0;
    let ghost full_plan = plan@;
    let ghost full_oks = outcomes@;
    proof {
        assert(full_plan.skip(0) =~= full_plan);
        assert(full_oks.skip(0) =~= full_oks);
    }
    while i < plan.len()
        invariant
            i <= plan@.len(),
            plan@ == spec_plan(),
            outcomes@ == full_oks,
            full_oks.len() == full_plan.len(),
            full_plan == spec_plan(),
            spec_run(init, full_plan, full_oks) == spec_run(
                s,
                full_plan.skip(i as int),
                full_oks.skip(i as int),
            ),
        decreases plan@.len() - i,
    {
        let step = plan[i];
        let ok = outcomes[i];
        proof {
            assert(full_plan.skip(i as int).first() == step);
            assert(full_oks.skip(i as int).first() == ok);
            assert(full_plan.skip(i as int).drop_first() =~= full_plan.skip(i as int + 1));
            assert(full_oks.skip(i as int).drop_first() =~= full_oks.skip(i as int + 1));
        }
        let next = apply_step(s, step, ok);
        if !ok && step_is_fatal(step) {
            proof {
                assert(spec_run(s, full_plan.skip(i as int), full_oks.skip(i as int)) == spec_apply(
                    s,
                    step,
                    ok,
                ));
                assert(spec_run(next, full_plan.skip(full_plan.len() as int), full_oks.skip(
                    full_plan.len() as int)) == next);
            }
            return next;
        }
        s = next;
        i = i + 1;
    }
    proof {
        assert(full_plan.skip(full_plan.len() as int) =~= Seq::<ReplaceStep>::empty());
        assert(spec_run(s, full_plan.skip(full_plan.len() as int), full_oks.skip(
            full_plan.len() as int)) == s);
    }
    s
}

/// The state a swap starts from: the running binary at its own path, an
/// empty staging path, and possibly a stale backup.
pub open spec fn spec_initial(old_slot: Option<FileImage>) -> ReplaceFs {
    ReplaceFs { current: Some(FileImage::Original), old: old_slot, staged: None }
}

/// Atomicity of the swap. For every combination of step outcomes, a run
/// from an initial state leaves at the executable's path either the
/// original binary or the fully copied update — never a partial file, and
/// never nothing, except inside the documented crash window after the
/// backup rename succeeded and before the activating rename succeeded.
/// Before the point of no return the original is still in place, and a
/// fully successful run installs the update and keeps the original at the
/// backup path for manual rollback.
pub proof fn lemma_replace_atomicity(old_slot: Option<FileImage>, oks: Seq<bool>)
    requires
        oks.len() == spec_plan().len(),
    ensures
        ({
            let fin = spec_run(spec_initial(old_slot), spec_plan(), oks);
            &&& fin.current != Some(FileImage::Partial)
            &&& (fin.current == Some(FileImage::Original) || fin.current == Some(
                FileImage::Updated,
            ) || (oks[2] && !(oks[3] && oks[4]) && fin.current is None))
            &&& (!oks[2] ==> fin.current == Some(FileImage::Original))
            &&& ((oks[0] && oks[2] && oks[3] && oks[4]) ==> fin.current == Some(FileImage::Updated)
                && fin.old == Some(FileImage::Original))
        }),
{
    reveal_with_fuel(spec_run, 7);
    let s0 = spec_initial(old_slot);
    let p = spec_plan();
    assert(p.drop_first() =~= seq![
        ReplaceStep::RemoveOld,
        ReplaceStep::BackupCurrent,
        ReplaceStep::StageCopy,
        ReplaceStep::Activate,
    ]);
    assert(p.drop_first().drop_first() =~= seq![
        ReplaceStep::BackupCurrent,
        ReplaceStep::StageCopy,
        ReplaceStep::Activate,
    ]);
    assert(p.drop_first().drop_first().drop_first() =~= seq![
        ReplaceStep::StageCopy,
        ReplaceStep::Activate,
    ]);
    assert(p.drop_first().drop_first().drop_first().drop_first() =~= seq![ReplaceStep::Activate]);
    assert(p.drop_first().drop_first().drop_first().drop_first().drop_first() =~= Seq::<
        ReplaceStep,
    >::empty());
}

} // verus!
