use self_updater::replace::{
    run_replace, FileImage, ReplaceFs, ReplaceStep, replace_plan, step_is_fatal,
};

fn initial(old_slot: Option<FileImage>) -> ReplaceFs {
    ReplaceFs { current: Some(FileImage::Original), old: old_slot, staged: None }
}

#[test]
fn plan_lists_the_five_steps_in_order() {
    let plan = replace_plan();
    assert_eq!(
        plan,
        vec![
            ReplaceStep::RestorePermissions,
            ReplaceStep::RemoveOld,
            ReplaceStep::BackupCurrent,
            ReplaceStep::StageCopy,
            ReplaceStep::Activate,
        ]
    );
}

#[test]
fn only_backup_removal_is_best_effort() {
    assert!(step_is_fatal(ReplaceStep::RestorePermissions));
    assert!(!step_is_fatal(ReplaceStep::RemoveOld));
    assert!(step_is_fatal(ReplaceStep::BackupCurrent));
    assert!(step_is_fatal(ReplaceStep::StageCopy));
    assert!(step_is_fatal(ReplaceStep::Activate));
}

#[test]
fn full_success_installs_update_and_keeps_backup() {
    let fin = run_replace(initial(None), &vec![true, true, true, true, true]);
    assert_eq!(fin.current, Some(FileImage::Updated));
    assert_eq!(fin.old, Some(FileImage::Original));
    assert_eq!(fin.staged, None);
}

#[test]
fn failed_copy_leaves_original_recoverable_and_no_partial_current() {
    // the copy to the staging path fails after the point of no return
    let fin = run_replace(initial(None), &vec![true, true, true, false, true]);
    // the executable's path never holds a partial file
    assert_ne!(fin.current, Some(FileImage::Partial));
    // this is the documented crash window: nothing at the executable's
    // path, the original recoverable from the backup path
    assert_eq!(fin.current, None);
    assert_eq!(fin.old, Some(FileImage::Original));
    // the partial file sits only at the staging path
    assert_eq!(fin.staged, Some(FileImage::Partial));
}

#[test]
fn failed_backup_rename_aborts_before_the_point_of_no_return() {
    let fin = run_replace(initial(Some(FileImage::Original)), &vec![true, true, false, true, true]);
    assert_eq!(fin.current, Some(FileImage::Original));
    assert_eq!(fin.staged, None);
}

#[test]
fn stale_backup_removal_failure_does_not_abort() {
    let fin = run_replace(initial(Some(FileImage::Original)), &vec![true, false, true, true, true]);
    assert_eq!(fin.current, Some(FileImage::Updated));
    assert_eq!(fin.old, Some(FileImage::Original));
}

#[test]
fn failed_permission_restore_leaves_everything_untouched() {
    let before = initial(Some(FileImage::Original));
    let fin = run_replace(before, &vec![false, true, true, true, true]);
    assert_eq!(fin, before);
}

#[test]
fn failed_activation_stays_in_the_documented_window() {
    let fin = run_replace(initial(None), &vec![true, true, true, true, false]);
    assert_ne!(fin.current, Some(FileImage::Partial));
    assert_eq!(fin.current, None);
    assert_eq!(fin.old, Some(FileImage::Original));
    assert_eq!(fin.staged, Some(FileImage::Updated));
}
