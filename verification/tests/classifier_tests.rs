use kongg::classifier::{Classifier, NotificationKind, Outcome, RawNotification, DEFAULT_DEBOUNCE_MS};
use kongg::event::EventType;
use kongg::ignore::build_ignore_list;

fn default_classifier() -> Classifier {
    let filter = build_ignore_list().expect("default patterns compile");
    Classifier::new(filter, DEFAULT_DEBOUNCE_MS)
}

fn notification(kind: NotificationKind, paths: &[&str]) -> RawNotification {
    RawNotification { kind, paths: paths.iter().map(|p| p.to_string()).collect() }
}

#[test]
fn created_in_watch_root_emits_created() {
    let mut c = default_classifier();
    let n = notification(NotificationKind::Created, &["/tmp/w/a.txt"]);
    match c.classify(&n, None, 7) {
        Outcome::Emitted(e) => {
            assert_eq!(e.event_type, EventType::Created);
            assert_eq!(e.path, "/tmp/w/a.txt");
            assert!(e.previous_path.is_none());
            assert_eq!(e.timestamp, 7);
        }
        _ => panic!("expected an emitted event"),
    }
}

#[test]
fn rename_pair_different_basename_emits_renamed_and_no_deleted() {
    let mut c = default_classifier();
    let n1 = notification(NotificationKind::RenamedFrom, &["/tmp/w/a.txt"]);
    match c.classify(&n1, None, 0) {
        Outcome::DeletionPending(p) => assert_eq!(p, "/tmp/w/a.txt"),
        _ => panic!("expected a pending deletion"),
    }
    let n2 = notification(NotificationKind::RenamedBoth, &["/tmp/w/a.txt", "/tmp/w/b.txt"]);
    match c.classify(&n2, Some("/tmp/w/b.txt"), 10) {
        Outcome::Emitted(e) => {
            assert_eq!(e.event_type, EventType::Renamed);
            assert_eq!(e.path, "/tmp/w/b.txt");
            assert_eq!(e.previous_path.as_deref(), Some("/tmp/w/a.txt"));
            assert_eq!(e.timestamp, 10);
        }
        _ => panic!("expected an emitted event"),
    }
    assert!(c.confirm_deletion("/tmp/w/a.txt", 100).is_none());
    assert!(c.confirm_deletion("/tmp/w/b.txt", 100).is_none());
}

#[test]
fn rename_pair_same_basename_emits_moved_and_no_deleted() {
    let mut c = default_classifier();
    let n1 = notification(NotificationKind::RenamedFrom, &["/tmp/w/sub/a.txt"]);
    c.classify(&n1, None, 0);
    let n2 = notification(NotificationKind::RenamedBoth, &["/tmp/w/sub/a.txt", "/tmp/w/other/a.txt"]);
    match c.classify(&n2, Some("/tmp/w/other/a.txt"), 10) {
        Outcome::Emitted(e) => {
            assert_eq!(e.event_type, EventType::Moved);
            assert_eq!(e.path, "/tmp/w/other/a.txt");
            assert_eq!(e.previous_path.as_deref(), Some("/tmp/w/sub/a.txt"));
        }
        _ => panic!("expected an emitted event"),
    }
    assert!(c.confirm_deletion("/tmp/w/sub/a.txt", 100).is_none());
}

#[test]
fn rename_pair_unresolvable_new_path_fails_closed_to_renamed() {
    let mut c = default_classifier();
    let n = notification(NotificationKind::RenamedBoth, &["/tmp/w/a.txt", "/tmp/w/other/a.txt"]);
    match c.classify(&n, None, 3) {
        Outcome::Emitted(e) => assert_eq!(e.event_type, EventType::Renamed),
        _ => panic!("expected an emitted event"),
    }
}

#[test]
fn unmatched_renamed_from_confirms_deletion_once() {
    let mut c = default_classifier();
    let n = notification(NotificationKind::RenamedFrom, &["/tmp/w/a.txt"]);
    c.classify(&n, None, 0);
    let e = c.confirm_deletion("/tmp/w/a.txt", 150).expect("confirmation fires");
    assert_eq!(e.event_type, EventType::Deleted);
    assert_eq!(e.path, "/tmp/w/a.txt");
    assert!(e.previous_path.is_none());
    assert_eq!(e.timestamp, 150);
    assert!(c.confirm_deletion("/tmp/w/a.txt", 200).is_none());
}

#[test]
fn double_renamed_from_yields_at_most_one_deleted() {
    let mut c = default_classifier();
    let n = notification(NotificationKind::RenamedFrom, &["/tmp/w/a.txt"]);
    c.classify(&n, None, 0);
    c.classify(&n, None, 50);
    assert!(c.confirm_deletion("/tmp/w/a.txt", 100).is_some());
    assert!(c.confirm_deletion("/tmp/w/a.txt", 150).is_none());
}

#[test]
fn ignored_path_drops_notification_of_every_kind() {
    let mut c = default_classifier();
    let kinds = [
        NotificationKind::Created,
        NotificationKind::Removed,
        NotificationKind::RenamedFrom,
        NotificationKind::RenamedBoth,
        NotificationKind::OtherModify,
    ];
    for kind in kinds {
        let n = notification(kind, &["/tmp/w/.git/config", "/tmp/w/b.txt"]);
        assert!(matches!(c.classify(&n, None, 0), Outcome::Dropped));
    }
    assert!(c.confirm_deletion("/tmp/w/.git/config", 100).is_none());
}

#[test]
fn rename_with_one_ignored_side_is_dropped_whole() {
    let mut c = default_classifier();
    let n = notification(
        NotificationKind::RenamedBoth,
        &["/tmp/w/app.log", "/tmp/w/app.txt"],
    );
    assert!(matches!(c.classify(&n, Some("/tmp/w/app.txt"), 0), Outcome::Dropped));
}

#[test]
fn removed_is_observed_but_not_emitted() {
    let mut c = default_classifier();
    let n = notification(NotificationKind::Removed, &["/tmp/w/a.txt"]);
    assert!(matches!(c.classify(&n, None, 0), Outcome::Observed));
}

#[test]
fn malformed_path_lists_are_no_ops() {
    let mut c = default_classifier();
    assert!(matches!(
        c.classify(&notification(NotificationKind::Created, &[]), None, 0),
        Outcome::Dropped
    ));
    assert!(matches!(
        c.classify(&notification(NotificationKind::RenamedFrom, &[]), None, 0),
        Outcome::Dropped
    ));
    assert!(matches!(
        c.classify(&notification(NotificationKind::RenamedBoth, &["/tmp/w/a.txt"]), None, 0),
        Outcome::Dropped
    ));
    assert!(c.confirm_deletion("/tmp/w/a.txt", 100).is_none());
}

#[test]
fn other_modify_and_caller_ignored_do_nothing() {
    let mut c = default_classifier();
    let n = notification(NotificationKind::OtherModify, &["/tmp/w/a.txt"]);
    assert!(matches!(c.classify(&n, None, 0), Outcome::Dropped));
    let n = notification(NotificationKind::CallerIgnored, &["/tmp/w/a.txt"]);
    assert!(matches!(c.classify(&n, None, 0), Outcome::Dropped));
}

#[test]
fn rename_both_clears_stale_entry_for_new_path() {
    let mut c = default_classifier();
    c.classify(&notification(NotificationKind::RenamedFrom, &["/tmp/w/b.txt"]), None, 0);
    let n = notification(NotificationKind::RenamedBoth, &["/tmp/w/a.txt", "/tmp/w/b.txt"]);
    c.classify(&n, Some("/tmp/w/b.txt"), 10);
    assert!(c.confirm_deletion("/tmp/w/b.txt", 100).is_none());
}

#[test]
fn late_rename_after_confirmation_starts_a_new_cycle() {
    let mut c = default_classifier();
    c.classify(&notification(NotificationKind::RenamedFrom, &["/tmp/w/a.txt"]), None, 0);
    assert!(c.confirm_deletion("/tmp/w/a.txt", 100).is_some());
    let n = notification(NotificationKind::RenamedBoth, &["/tmp/w/a.txt", "/tmp/w/b.txt"]);
    match c.classify(&n, Some("/tmp/w/b.txt"), 120) {
        Outcome::Emitted(e) => assert_eq!(e.event_type, EventType::Renamed),
        _ => panic!("expected an emitted event"),
    }
    assert!(c.confirm_deletion("/tmp/w/a.txt", 200).is_none());
}

#[test]
fn removal_policy_emits_deleted_directly_when_enabled() {
    let filter = build_ignore_list().expect("default patterns compile");
    let mut c = Classifier::with_removal_policy(filter, DEFAULT_DEBOUNCE_MS, true);
    let n = notification(NotificationKind::Removed, &["/tmp/w/a.txt"]);
    match c.classify(&n, None, 33) {
        Outcome::Emitted(e) => {
            assert_eq!(e.event_type, EventType::Deleted);
            assert_eq!(e.path, "/tmp/w/a.txt");
            assert!(e.previous_path.is_none());
            assert_eq!(e.timestamp, 33);
        }
        _ => panic!("expected an emitted event"),
    }
    let ignored = notification(NotificationKind::Removed, &["/tmp/w/.git/c"]);
    assert!(matches!(c.classify(&ignored, None, 34), Outcome::Dropped));
}

#[test]
fn debounce_window_is_kept() {
    let c = default_classifier();
    assert_eq!(c.debounce_ms(), 100);
}
