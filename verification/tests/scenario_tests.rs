use dmg_pipeline::manifest::build_file_list;
use dmg_pipeline::pipeline::{Action, DmgError, Event, Pipeline, State};

/// Feed the events to the pipeline in order and record the requested action
/// before the first event and after each one.
fn drive(p: &mut Pipeline, events: Vec<Event>) -> Vec<Action> {
    let mut actions = vec![p.next_action()];
    for ev in events {
        p.step(ev);
        actions.push(p.next_action());
    }
    actions
}

fn count_detaches(actions: &[Action]) -> usize {
    actions.iter().filter(|a| matches!(a, Action::Detach)).count()
}

fn count_finalizes(actions: &[Action]) -> usize {
    actions.iter().filter(|a| matches!(a, Action::Finalize)).count()
}

#[test]
fn scenario_full_success_without_icon() {
    // A 10,485,760-byte bundle, no icon, label "MyApp": the capacity is
    // ceil((10485760 + 20) / 1048576) = 11 and the run finalizes.
    let mut p = Pipeline::new(build_file_list("MyApp.app", None), "MyApp".to_string());
    let actions = drive(
        &mut p,
        vec![
            Event::SizeOutput { output: b"10485760\t./MyApp.app\n".to_vec() },
            Event::AllocateDone,
            Event::FormatDone,
            Event::AttachDone,
            Event::CopyDone,
            Event::AttributeDone,
            Event::DetachDone,
            Event::RenameDone,
        ],
    );
    assert_eq!(p.state, State::Finalized);
    assert_eq!(p.capacity_mb, 11);
    assert!(p.error.is_none());
    assert_eq!(p.detach_requests, 1);
    assert_eq!(p.finalize_requests, 1);
    assert_eq!(
        actions,
        vec![
            Action::QuerySize { index: 0 },
            Action::Allocate { capacity_mb: 11 },
            Action::Format,
            Action::Attach,
            Action::CopyEntry { index: 0 },
            Action::SetAttribute,
            Action::Detach,
            Action::Finalize,
            Action::Stop,
        ]
    );
}

#[test]
fn scenario_second_copy_fails() {
    // The copy of the second manifest entry fails: the pipeline routes
    // through ErrorDetaching to Failed, the detach is requested exactly
    // once, the error is a CopyFailure naming that entry, and the final
    // rename is never requested.
    let mut p = Pipeline::new(
        build_file_list("MyApp.app", Some("icon.icns")),
        "MyApp".to_string(),
    );
    let actions = drive(
        &mut p,
        vec![
            Event::SizeOutput { output: b"1000\t./MyApp.app\n".to_vec() },
            Event::SizeOutput { output: b"100\t./icon.icns\n".to_vec() },
            Event::AllocateDone,
            Event::FormatDone,
            Event::AttachDone,
            Event::CopyDone,
        ],
    );
    assert_eq!(p.state, State::Mounted);
    assert_eq!(*actions.last().unwrap(), Action::CopyEntry { index: 1 });

    p.step(Event::CopyFailed { diagnostic: "cp: cannot stat".to_string() });
    assert_eq!(p.state, State::ErrorDetaching);
    assert_eq!(p.next_action(), Action::Detach);

    p.step(Event::DetachDone);
    assert_eq!(p.state, State::Failed);
    assert_eq!(p.detach_requests, 1);
    assert_eq!(p.finalize_requests, 0);
    assert!(matches!(p.error, Some(DmgError::CopyFailure { index: 1, .. })));
    assert!(p.cleanup_error.is_none());
}

#[test]
fn scenario_attach_fails() {
    // The attach fails (simulated permission denial): the pipeline fails
    // directly, no detach is ever requested, and the error is MountFailure.
    let mut p = Pipeline::new(build_file_list("MyApp.app", None), "MyApp".to_string());
    let actions = drive(
        &mut p,
        vec![
            Event::SizeOutput { output: b"1000\t./MyApp.app\n".to_vec() },
            Event::AllocateDone,
            Event::FormatDone,
            Event::AttachFailed { diagnostic: "mount: permission denied".to_string() },
        ],
    );
    assert_eq!(p.state, State::Failed);
    assert!(matches!(p.error, Some(DmgError::MountFailure { .. })));
    assert_eq!(p.detach_requests, 0);
    assert_eq!(p.finalize_requests, 0);
    assert_eq!(count_detaches(&actions), 0);
    assert_eq!(count_finalizes(&actions), 0);
}

#[test]
fn scenario_icon_entry_tags_once_after_both_copies() {
    // With an icon supplied the manifest has two entries and the attribute
    // is still set exactly once, after both entries were copied.
    let mut p = Pipeline::new(
        build_file_list("MyApp.app", Some("icon.icns")),
        "MyApp".to_string(),
    );
    assert_eq!(p.entries.len(), 2);
    let actions = drive(
        &mut p,
        vec![
            Event::SizeOutput { output: b"1000\t./MyApp.app\n".to_vec() },
            Event::SizeOutput { output: b"100\t./icon.icns\n".to_vec() },
            Event::AllocateDone,
            Event::FormatDone,
            Event::AttachDone,
            Event::CopyDone,
            Event::CopyDone,
            Event::AttributeDone,
            Event::DetachDone,
            Event::RenameDone,
        ],
    );
    assert_eq!(p.state, State::Finalized);
    let tags = actions.iter().filter(|a| matches!(a, Action::SetAttribute)).count();
    assert_eq!(tags, 1);
    let copy_one = actions.iter().position(|a| *a == Action::CopyEntry { index: 0 }).unwrap();
    let copy_two = actions.iter().position(|a| *a == Action::CopyEntry { index: 1 }).unwrap();
    let tag = actions.iter().position(|a| matches!(a, Action::SetAttribute)).unwrap();
    assert!(copy_one < copy_two && copy_two < tag);
}

#[test]
fn identical_runs_request_identical_actions() {
    // Idempotence under retry: two runs with identical inputs and identical
    // outcomes request identical action sequences.
    let events = || {
        vec![
            Event::SizeOutput { output: b"5242880\t./MyApp.app\n".to_vec() },
            Event::SizeOutput { output: b"100\t./icon.icns\n".to_vec() },
            Event::AllocateDone,
            Event::FormatDone,
            Event::AttachDone,
            Event::CopyDone,
            Event::CopyDone,
            Event::AttributeDone,
            Event::DetachDone,
            Event::RenameDone,
        ]
    };
    let mut p1 = Pipeline::new(
        build_file_list("MyApp.app", Some("icon.icns")),
        "MyApp".to_string(),
    );
    let mut p2 = Pipeline::new(
        build_file_list("MyApp.app", Some("icon.icns")),
        "MyApp".to_string(),
    );
    let a1 = drive(&mut p1, events());
    let a2 = drive(&mut p2, events());
    assert_eq!(a1, a2);
    assert_eq!(p1.state, p2.state);
    assert_eq!(p1.state, State::Finalized);
    assert_eq!(p1.capacity_mb, p2.capacity_mb);
}

#[test]
fn capacity_grows_with_entry_size() {
    // The derived capacity is monotonically non-decreasing in an entry's
    // size: one byte more tips the total over a megabyte boundary.
    let mut small = Pipeline::new(build_file_list("A.app", None), "A".to_string());
    small.step(Event::SizeOutput { output: b"1048556\t.\n".to_vec() });
    let mut large = Pipeline::new(build_file_list("A.app", None), "A".to_string());
    large.step(Event::SizeOutput { output: b"1048557\t.\n".to_vec() });
    assert_eq!(small.capacity_mb, 1);
    assert_eq!(large.capacity_mb, 2);
    assert!(small.capacity_mb <= large.capacity_mb);
}

#[test]
fn zero_byte_bundle_still_allocates_one_megabyte() {
    // The per-entry overhead keeps the derived capacity positive even for
    // an empty bundle.
    let mut p = Pipeline::new(build_file_list("Empty.app", None), "Empty".to_string());
    p.step(Event::SizeOutput { output: b"0\t./Empty.app\n".to_vec() });
    assert_eq!(p.state, State::SizeEstimated);
    assert_eq!(p.capacity_mb, 1);
    assert_eq!(p.next_action(), Action::Allocate { capacity_mb: 1 });
}

#[test]
fn unparseable_size_output_fails_run() {
    let mut p = Pipeline::new(build_file_list("MyApp.app", None), "MyApp".to_string());
    p.step(Event::SizeOutput { output: b"du: cannot access '.': No such file\n".to_vec() });
    assert_eq!(p.state, State::Failed);
    assert!(matches!(p.error, Some(DmgError::SizeQueryFailure { index: 0, .. })));
    assert_eq!(p.detach_requests, 0);
    assert_eq!(p.finalize_requests, 0);
}

#[test]
fn size_total_beyond_u64_fails_run() {
    // The second entry pushes the byte total past what a u64 can hold.
    let mut p = Pipeline::new(
        build_file_list("MyApp.app", Some("icon.icns")),
        "MyApp".to_string(),
    );
    p.step(Event::SizeOutput { output: b"18446744073709551595\t.\n".to_vec() });
    assert_eq!(p.state, State::Start);
    p.step(Event::SizeOutput { output: b"1\t.\n".to_vec() });
    assert_eq!(p.state, State::Failed);
    assert!(matches!(p.error, Some(DmgError::SizeQueryFailure { index: 1, .. })));
}

#[test]
fn allocation_failure_names_capacity() {
    let mut p = Pipeline::new(build_file_list("MyApp.app", None), "MyApp".to_string());
    p.step(Event::SizeOutput { output: b"10485760\t.\n".to_vec() });
    p.step(Event::AllocateFailed { diagnostic: "dd: no space left".to_string() });
    assert_eq!(p.state, State::Failed);
    assert!(matches!(
        p.error,
        Some(DmgError::AllocationFailure { capacity_mb: 11, .. })
    ));
    assert_eq!(p.detach_requests, 0);
}

#[test]
fn format_failure_fails_directly() {
    let mut p = Pipeline::new(build_file_list("MyApp.app", None), "MyApp".to_string());
    p.step(Event::SizeOutput { output: b"1000\t.\n".to_vec() });
    p.step(Event::AllocateDone);
    p.step(Event::FormatFailed { diagnostic: "mkfs.hfsplus: not a block device".to_string() });
    assert_eq!(p.state, State::Failed);
    assert!(matches!(p.error, Some(DmgError::FormatFailure { .. })));
    assert_eq!(p.detach_requests, 0);
}

#[test]
fn attribute_failure_forces_cleanup_detach() {
    let mut p = Pipeline::new(build_file_list("MyApp.app", None), "MyApp".to_string());
    p.step(Event::SizeOutput { output: b"1000\t.\n".to_vec() });
    p.step(Event::AllocateDone);
    p.step(Event::FormatDone);
    p.step(Event::AttachDone);
    p.step(Event::CopyDone);
    p.step(Event::AttributeFailed { diagnostic: "xattr: operation not supported".to_string() });
    assert_eq!(p.state, State::ErrorDetaching);
    assert_eq!(p.next_action(), Action::Detach);
    p.step(Event::DetachDone);
    assert_eq!(p.state, State::Failed);
    assert!(matches!(p.error, Some(DmgError::AttributeFailure { .. })));
    assert_eq!(p.detach_requests, 1);
    assert_eq!(p.finalize_requests, 0);
}

#[test]
fn detach_failure_on_success_path_is_unmount_failure() {
    let mut p = Pipeline::new(build_file_list("MyApp.app", None), "MyApp".to_string());
    p.step(Event::SizeOutput { output: b"1000\t.\n".to_vec() });
    p.step(Event::AllocateDone);
    p.step(Event::FormatDone);
    p.step(Event::AttachDone);
    p.step(Event::CopyDone);
    p.step(Event::AttributeDone);
    p.step(Event::DetachFailed { diagnostic: "umount: target is busy".to_string() });
    assert_eq!(p.state, State::Failed);
    assert!(matches!(p.error, Some(DmgError::UnmountFailure { .. })));
    assert_eq!(p.detach_requests, 1);
    assert_eq!(p.finalize_requests, 0);
    assert!(p.cleanup_error.is_none());
}

#[test]
fn cleanup_detach_failure_keeps_root_cause() {
    // A failing cleanup detach is reported beside the original error, never
    // in its place.
    let mut p = Pipeline::new(build_file_list("MyApp.app", None), "MyApp".to_string());
    p.step(Event::SizeOutput { output: b"1000\t.\n".to_vec() });
    p.step(Event::AllocateDone);
    p.step(Event::FormatDone);
    p.step(Event::AttachDone);
    p.step(Event::CopyFailed { diagnostic: "cp: I/O error".to_string() });
    assert_eq!(p.state, State::ErrorDetaching);
    p.step(Event::DetachFailed { diagnostic: "umount: target is busy".to_string() });
    assert_eq!(p.state, State::Failed);
    assert!(matches!(p.error, Some(DmgError::CopyFailure { index: 0, .. })));
    assert_eq!(p.cleanup_error.as_deref(), Some("umount: target is busy"));
    assert_eq!(p.detach_requests, 1);
}

#[test]
fn rename_failure_is_reported() {
    let mut p = Pipeline::new(build_file_list("MyApp.app", None), "MyApp".to_string());
    p.step(Event::SizeOutput { output: b"1000\t.\n".to_vec() });
    p.step(Event::AllocateDone);
    p.step(Event::FormatDone);
    p.step(Event::AttachDone);
    p.step(Event::CopyDone);
    p.step(Event::AttributeDone);
    p.step(Event::DetachDone);
    p.step(Event::RenameFailed { diagnostic: "rename: cross-device link".to_string() });
    assert_eq!(p.state, State::Failed);
    assert!(matches!(p.error, Some(DmgError::RenameFailure { .. })));
    assert_eq!(p.detach_requests, 1);
}
