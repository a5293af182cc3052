//! The guarantees the classifier gives across several steps: what one
//! classification step emits, and how a rename pair, a lone rename half,
//! and a re-registered tentative deletion interact with the debounce
//! confirmation. Each is stated over the step function `spec_classify` and
//! the pending-set transitions that the classifier's contracts use.

use vstd::prelude::*;

use crate::classifier::{
    confirm_fires, pending_after_confirm, rename_is_move, spec_classify, NotificationKind,
    SpecOutcome,
};
use crate::event::{EventType, SpecEvent};
use crate::ignore::{any_ignored, path_ignored};

verus! {

/// A creation notification for a path that no ignore pattern matches is
/// classified as exactly one created event for that path, emitted in the
/// same step, and the pending set is left alone.
pub proof fn lemma_create_emits_created(
    patterns: Seq<Seq<char>>,
    pending: Set<Seq<char>>,
    emit_removed: bool,
    p: Seq<char>,
    now: u64,
)
    requires
        !path_ignored(patterns, p),
    ensures
        spec_classify(patterns, pending, emit_removed, NotificationKind::Created, seq![p], None, now).0
            == SpecOutcome::Emitted(
            SpecEvent {
                event_type: EventType::Created,
                path: p,
                previous_path: None,
                timestamp: now,
            },
        ),
        spec_classify(patterns, pending, emit_removed, NotificationKind::Created, seq![p], None, now).1
            == pending,
{
    lemma_sole_path_not_ignored(patterns, p);
}

/// No event is emitted, and the pending set does not change, for a
/// notification any of whose paths matches an ignore pattern, whatever its
/// kind: the notification is dropped in its entirety.
pub proof fn lemma_ignored_paths_never_emit(
    patterns: Seq<Seq<char>>,
    pending: Set<Seq<char>>,
    emit_removed: bool,
    kind: NotificationKind,
    paths: Seq<Seq<char>>,
    canonical_new: Option<Seq<char>>,
    now: u64,
)
    requires
        any_ignored(patterns, paths),
    ensures
        spec_classify(patterns, pending, emit_removed, kind, paths, canonical_new, now).0
            == SpecOutcome::Dropped,
        spec_classify(patterns, pending, emit_removed, kind, paths, canonical_new, now).1 == pending,
{
}

/// A renamed-from followed by the completed rename of the same path, before
/// any confirmation ran, emits exactly one event for the pair: a moved
/// event when the basenames agree, a renamed event when they differ or the
/// new path did not resolve. Afterwards no deletion confirmation can fire
/// for either path: a deleted event is never emitted for this cycle.
pub proof fn lemma_rename_pair_cancels_deletion(
    patterns: Seq<Seq<char>>,
    pending: Set<Seq<char>>,
    emit_removed: bool,
    old_path: Seq<char>,
    new_path: Seq<char>,
    canonical_new: Option<Seq<char>>,
    t1: u64,
    t2: u64,
)
    requires
        !path_ignored(patterns, old_path),
        !path_ignored(patterns, new_path),
    ensures
        spec_classify(patterns, pending, emit_removed, NotificationKind::RenamedFrom, seq![old_path], None, t1).0
            == SpecOutcome::DeletionPending(old_path),
        ({
            let after_from = spec_classify(
                patterns,
                pending,
                emit_removed,
                NotificationKind::RenamedFrom,
                seq![old_path],
                None,
                t1,
            ).1;
            let step = spec_classify(
                patterns,
                after_from,
                emit_removed,
                NotificationKind::RenamedBoth,
                seq![old_path, new_path],
                canonical_new,
                t2,
            );
            &&& step.0 == SpecOutcome::Emitted(
                SpecEvent {
                    event_type: if rename_is_move(old_path, canonical_new) {
                        EventType::Moved
                    } else {
                        EventType::Renamed
                    },
                    path: new_path,
                    previous_path: Some(old_path),
                    timestamp: t2,
                },
            )
            &&& !confirm_fires(step.1, old_path)
            &&& !confirm_fires(step.1, new_path)
        }),
{
    lemma_sole_path_not_ignored(patterns, old_path);
    lemma_path_pair_not_ignored(patterns, old_path, new_path);
}

/// A renamed-from with no matching completed rename registers its path: the
/// deletion confirmation for it fires, and once it has run, a second
/// confirmation can never fire again, so exactly one deleted event results.
pub proof fn lemma_unmatched_rename_confirms_deletion(
    patterns: Seq<Seq<char>>,
    pending: Set<Seq<char>>,
    emit_removed: bool,
    p: Seq<char>,
    t1: u64,
)
    requires
        !path_ignored(patterns, p),
    ensures
        spec_classify(patterns, pending, emit_removed, NotificationKind::RenamedFrom, seq![p], None, t1).0
            == SpecOutcome::DeletionPending(p),
        ({
            let after = spec_classify(
                patterns,
                pending,
                emit_removed,
                NotificationKind::RenamedFrom,
                seq![p],
                None,
                t1,
            ).1;
            &&& confirm_fires(after, p)
            &&& !confirm_fires(pending_after_confirm(after, p), p)
        }),
{
    lemma_sole_path_not_ignored(patterns, p);
}

/// Registering the same path twice, before either confirmation ran, leaves
/// the pending set the first registration produced: the entry is
/// overwritten, never duplicated, and once one confirmation has fired no
/// further one can, so at most one deleted event results for the path.
pub proof fn lemma_reregistration_single_confirmation(
    patterns: Seq<Seq<char>>,
    pending: Set<Seq<char>>,
    emit_removed: bool,
    p: Seq<char>,
    t1: u64,
    t2: u64,
)
    requires
        !path_ignored(patterns, p),
    ensures
        ({
            let once = spec_classify(
                patterns,
                pending,
                emit_removed,
                NotificationKind::RenamedFrom,
                seq![p],
                None,
                t1,
            ).1;
            let twice = spec_classify(
                patterns,
                once,
                emit_removed,
                NotificationKind::RenamedFrom,
                seq![p],
                None,
                t2,
            ).1;
            &&& twice == once
            &&& !confirm_fires(pending_after_confirm(twice, p), p)
        }),
{
    lemma_sole_path_not_ignored(patterns, p);
    let once = spec_classify(patterns, pending, emit_removed, NotificationKind::RenamedFrom, seq![p], None, t1).1;
    let twice = spec_classify(patterns, once, emit_removed, NotificationKind::RenamedFrom, seq![p], None, t2).1;
    assert(twice =~= once);
}

/// A one-path notification is dropped by the filter exactly when that path
/// is matched.
proof fn lemma_sole_path_not_ignored(patterns: Seq<Seq<char>>, p: Seq<char>)
    requires
        !path_ignored(patterns, p),
    ensures
        !any_ignored(patterns, seq![p]),
{
    assert forall|j: int| 0 <= j < seq![p].len() implies !path_ignored(patterns, seq![p][j]) by {
        assert(seq![p][j] == p);
    }
}

/// A two-path notification is dropped by the filter exactly when one of its
/// paths is matched.
proof fn lemma_path_pair_not_ignored(patterns: Seq<Seq<char>>, a: Seq<char>, b: Seq<char>)
    requires
        !path_ignored(patterns, a),
        !path_ignored(patterns, b),
    ensures
        !any_ignored(patterns, seq![a, b]),
{
    assert forall|j: int| 0 <= j < seq![a, b].len() implies !path_ignored(
        patterns,
        seq![a, b][j],
    ) by {
        if j == 0 {
            assert(seq![a, b][j] == a);
        } else {
            assert(seq![a, b][j] == b);
        }
    }
}

} // verus!
