//! The event classifier: the state machine at the centre of the library. It
//! consumes one raw notification at a time, drops notifications whose paths
//! the ignore filter matches, emits created/renamed/moved events at once,
//! and resolves the delete-versus-rename ambiguity through the
//! pending-deletion registry: a lone renamed-from notification tentatively
//! registers a deletion that a debounce confirmation later either confirms
//! (emitting a deleted event) or finds cancelled by a matching rename.

use vstd::prelude::*;

use crate::event::{ClassifiedEvent, EventType, SpecEvent};
use crate::ignore::{any_ignored, IgnoreFilter};
use crate::pathing::{basename, spec_basename};
use crate::registry::PendingRegistry;
use crate::strutil::str_eq;

verus! {

/// The debounce window the watcher uses when none is configured, in
/// milliseconds.
pub const DEFAULT_DEBOUNCE_MS: u64 = 100;

/// The kind tag of a raw notification, as the watch source reports it.
#[derive(Debug, Clone, Copy, PartialEq, Eq, Structural)]
pub enum NotificationKind {
    /// A file or directory came into being.
    Created,
    /// The watch source saw a removal. Under the default policy it is
    /// observed only, and deletions are inferred through the
    /// rename-debounce path; a classifier built with the raw-removal
    /// policy turns it into a deleted event directly.
    Removed,
    /// The first half of a rename: only the old path is known.
    RenamedFrom,
    /// A complete rename: old path first, new path second.
    RenamedBoth,
    /// Some other modification.
    OtherModify,
    /// A notification the watch source already marked as uninteresting.
    CallerIgnored,
}

/// A raw notification: a kind tag and the path or paths it concerns.
#[derive(Debug, Clone)]
pub struct RawNotification {
    pub kind: NotificationKind,
    pub paths: Vec<String>,
}

/// What one classification step produced.
#[derive(Debug, Clone)]
pub enum Outcome {
    /// Nothing: an ignored path, a malformed path list, or an uninteresting
    /// kind.
    Dropped,
    /// A removal was seen and noted, but no event is emitted for it.
    Observed,
    /// One classified event, to be handed to the persistence sink now.
    Emitted(ClassifiedEvent),
    /// The path was registered as tentatively deleted; the caller must
    /// schedule a deletion confirmation for it after the debounce window.
    DeletionPending(String),
}

/// The mathematical shape of an `Outcome`.
pub ghost enum SpecOutcome {
    Dropped,
    Observed,
    Emitted(SpecEvent),
    DeletionPending(Seq<char>),
}

impl View for Outcome {
    type V = SpecOutcome;

    open spec fn view(&self) -> SpecOutcome {
        match self {
            Outcome::Dropped => SpecOutcome::Dropped,
            Outcome::Observed => SpecOutcome::Observed,
            Outcome::Emitted(e) => SpecOutcome::Emitted(e@),
            Outcome::DeletionPending(p) => SpecOutcome::DeletionPending(p@),
        }
    }
}

/// The view of an optional canonicalized path handed in by the caller.
pub open spec fn opt_str_view(c: Option<&str>) -> Option<Seq<char>> {
    match c {
        Some(s) => Some(s@),
        None => None,
    }
}

/// Whether a completed rename is a move: the old path's basename equals the
/// basename of the canonicalized new path. When canonicalization failed the
/// comparison fails closed: not a move, so the rename is classified as
/// `Renamed` rather than `Moved`.
pub open spec fn rename_is_move(old_path: Seq<char>, canonical_new: Option<Seq<char>>) -> bool {
    match canonical_new {
        Some(c) => spec_basename(old_path) == spec_basename(c),
        None => false,
    }
}

/// The pending set after a renamed-from registers `old_path`: inserted,
/// overwriting any live entry for the same path.
pub open spec fn pending_after_renamed_from(
    pending: Set<Seq<char>>,
    old_path: Seq<char>,
) -> Set<Seq<char>> {
    pending.insert(old_path)
}

/// The pending set after a completed rename: the entry for `old_path` is
/// cancelled, and a stale entry for `new_path` from an unrelated earlier
/// rename is cleared as well.
pub open spec fn pending_after_renamed_both(
    pending: Set<Seq<char>>,
    old_path: Seq<char>,
    new_path: Seq<char>,
) -> Set<Seq<char>> {
    pending.remove(old_path).remove(new_path)
}

/// Whether a deletion confirmation for `path` fires: exactly when the entry
/// is still live at fire time.
pub open spec fn confirm_fires(pending: Set<Seq<char>>, path: Seq<char>) -> bool {
    pending.contains(path)
}

/// The pending set after a confirmation for `path` ran, whether or not it
/// fired.
pub open spec fn pending_after_confirm(
    pending: Set<Seq<char>>,
    path: Seq<char>,
) -> Set<Seq<char>> {
    pending.remove(path)
}

/// One classification step, as a mathematical function: what is produced,
/// and the pending set afterwards, for a notification of kind `kind` with
/// path list `paths` arriving at time `now`, with `canonical_new` the
/// canonicalized form of the second path where one exists and resolves.
/// `emit_removed` is the removal policy: whether a raw removal directly
/// yields a deleted event, or is observed only.
pub open spec fn spec_classify(
    patterns: Seq<Seq<char>>,
    pending: Set<Seq<char>>,
    emit_removed: bool,
    kind: NotificationKind,
    paths: Seq<Seq<char>>,
    canonical_new: Option<Seq<char>>,
    now: u64,
) -> (SpecOutcome, Set<Seq<char>>) {
    if any_ignored(patterns, paths) {
        (SpecOutcome::Dropped, pending)
    } else {
        match kind {
            NotificationKind::Created => if paths.len() >= 1 {
                (
                    SpecOutcome::Emitted(
                        SpecEvent {
                            event_type: EventType::Created,
                            path: paths[0],
                            previous_path: None,
                            timestamp: now,
                        },
                    ),
                    pending,
                )
            } else {
                (SpecOutcome::Dropped, pending)
            },
            NotificationKind::Removed => if emit_removed && paths.len() >= 1 {
                (
                    SpecOutcome::Emitted(
                        SpecEvent {
                            event_type: EventType::Deleted,
                            path: paths[0],
                            previous_path: None,
                            timestamp: now,
                        },
                    ),
                    pending,
                )
            } else {
                (SpecOutcome::Observed, pending)
            },
            NotificationKind::RenamedFrom => if paths.len() >= 1 {
                (
                    SpecOutcome::DeletionPending(paths[0]),
                    pending_after_renamed_from(pending, paths[0]),
                )
            } else {
                (SpecOutcome::Dropped, pending)
            },
            NotificationKind::RenamedBoth => if paths.len() >= 2 {
                (
                    SpecOutcome::Emitted(
                        SpecEvent {
                            event_type: if rename_is_move(paths[0], canonical_new) {
                                EventType::Moved
                            } else {
                                EventType::Renamed
                            },
                            path: paths[1],
                            previous_path: Some(paths[0]),
                            timestamp: now,
                        },
                    ),
                    pending_after_renamed_both(pending, paths[0], paths[1]),
                )
            } else {
                (SpecOutcome::Dropped, pending)
            },
            NotificationKind::OtherModify => (SpecOutcome::Dropped, pending),
            NotificationKind::CallerIgnored => (SpecOutcome::Dropped, pending),
        }
    }
}

/// The classifier: the ignore filter, the pending-deletion registry, and
/// the configured debounce window. The registry is the only mutable state;
/// the caller shares one classifier, under one lock, between the main
/// classification loop and every debounce confirmation task.
pub struct Classifier {
    filter: IgnoreFilter,
    registry: PendingRegistry,
    debounce_ms: u64,
    emit_raw_removals: bool,
}

impl Classifier {
    /// The ignore patterns in force.
    pub closed spec fn patterns(&self) -> Seq<Seq<char>> {
        self.filter.patterns()
    }

    /// The paths currently registered as tentatively deleted.
    pub closed spec fn pending(&self) -> Set<Seq<char>> {
        self.registry@
    }

    pub closed spec fn wf(&self) -> bool {
        self.registry.wf()
    }

    pub closed spec fn spec_debounce_ms(&self) -> u64 {
        self.debounce_ms
    }

    /// The removal policy in force: whether a raw removal notification
    /// directly yields a deleted event, bypassing the rename-debounce path.
    pub closed spec fn spec_emits_raw_removals(&self) -> bool {
        self.emit_raw_removals
    }

    /// A classifier with the default removal policy: raw removals are
    /// observed only, and deletions are inferred through the debounce path
    /// alone.
    pub fn new(filter: IgnoreFilter, debounce_ms: u64) -> (r: Self)
        ensures
            r.wf(),
            r.patterns() == filter.patterns(),
            r.pending() == Set::<Seq<char>>::empty(),
            r.spec_debounce_ms() == debounce_ms,
            !r.spec_emits_raw_removals(),
    {
        Classifier::with_removal_policy(filter, debounce_ms, false)
    }

    /// A classifier with an explicit removal policy: when
    /// `emit_raw_removals` is set, a raw removal notification directly
    /// yields a deleted event.
    pub fn with_removal_policy(filter: IgnoreFilter, debounce_ms: u64, emit_raw_removals: bool) -> (r: Self)
        ensures
            r.wf(),
            r.patterns() == filter.patterns(),
            r.pending() == Set::<Seq<char>>::empty(),
            r.spec_debounce_ms() == debounce_ms,
            r.spec_emits_raw_removals() == emit_raw_removals,
    {
        Classifier { filter, registry: PendingRegistry::new(), debounce_ms, emit_raw_removals }
    }

    /// The configured debounce window, in milliseconds: how long a
    /// tentative deletion waits for a cancelling rename before its
    /// confirmation runs.
    pub fn debounce_ms(&self) -> (r: u64)
        ensures
            r == self.spec_debounce_ms(),
    {
        self.debounce_ms
    }

    /// Classify one raw notification, arriving at time `now`.
    /// `canonical_new` is the canonicalized form of the notification's
    /// second path, where one exists and canonicalization succeeded; the
    /// caller passes `None` otherwise and the move heuristic fails closed.
    pub fn classify(&mut self, n: &RawNotification, canonical_new: Option<&str>, now: u64) -> (r:
        Outcome)
        requires
            old(self).wf(),
        ensures
            final(self).wf(),
            final(self).patterns() == old(self).patterns(),
            final(self).spec_debounce_ms() == old(self).spec_debounce_ms(),
            final(self).spec_emits_raw_removals() == old(self).spec_emits_raw_removals(),
            r@ == spec_classify(
                old(self).patterns(),
                old(self).pending(),
                old(self).spec_emits_raw_removals(),
                n.kind,
                n.paths.deep_view(),
                opt_str_view(canonical_new),
                now,
            ).0,
            final(self).pending() == spec_classify(
                old(self).patterns(),
                old(self).pending(),
                old(self).spec_emits_raw_removals(),
                n.kind,
                n.paths.deep_view(),
                opt_str_view(canonical_new),
                now,
            ).1,
    {
        if self.filter.matches_any(&n.paths) {
            return Outcome::Dropped;
        }
        match n.kind {
            NotificationKind::Created => {
                if n.paths.len() >= 1 {
                    let e = ClassifiedEvent {
                        event_type: EventType::Created,
                        path: n.paths[0].clone(),
                        previous_path: None,
                        timestamp: now,
                    };
                    Outcome::Emitted(e)
                } else {
                    Outcome::Dropped
                }
            }
            NotificationKind::Removed => {
                if self.emit_raw_removals && n.paths.len() >= 1 {
                    let e = ClassifiedEvent {
                        event_type: EventType::Deleted,
                        path: n.paths[0].clone(),
                        previous_path: None,
                        timestamp: now,
                    };
                    Outcome::Emitted(e)
                } else {
                    Outcome::Observed
                }
            }
            NotificationKind::RenamedFrom => {
                if n.paths.len() >= 1 {
                    let p = n.paths[0].clone();
                    self.registry.insert_or_replace(p.clone());
                    Outcome::DeletionPending(p)
                } else {
                    Outcome::Dropped
                }
            }
            NotificationKind::RenamedBoth => {
                if n.paths.len() >= 2 {
                    let old_path = n.paths[0].clone();
                    let new_path = n.paths[1].clone();
                    let old_base = basename(old_path.as_str());
                    let is_move = match canonical_new {
                        Some(c) => {
                            let new_base = basename(c);
                            str_eq(old_base.as_str(), new_base.as_str())
                        }
                        None => false,
                    };
                    let _was_pending = self.registry.try_take(old_path.as_str());
                    let _stale = self.registry.try_take(new_path.as_str());
                    let e = ClassifiedEvent {
                        event_type: if is_move {
                            EventType::Moved
                        } else {
                            EventType::Renamed
                        },
                        path: new_path,
                        previous_path: Some(old_path),
                        timestamp: now,
                    };
                    Outcome::Emitted(e)
                } else {
                    Outcome::Dropped
                }
            }
            NotificationKind::OtherModify => Outcome::Dropped,
            NotificationKind::CallerIgnored => Outcome::Dropped,
        }
    }

    /// Run the debounce confirmation for `path` at time `now`: atomically
    /// take its registry entry if still live, and emit the deleted event
    /// exactly when it was. A rename that arrived in the meantime has
    /// removed the entry, and nothing is emitted.
    pub fn confirm_deletion(&mut self, path: &str, now: u64) -> (r: Option<ClassifiedEvent>)
        requires
            old(self).wf(),
        ensures
            final(self).wf(),
            final(self).patterns() == old(self).patterns(),
            final(self).spec_debounce_ms() == old(self).spec_debounce_ms(),
            final(self).spec_emits_raw_removals() == old(self).spec_emits_raw_removals(),
            final(self).pending() == pending_after_confirm(old(self).pending(), path@),
            r is Some <==> confirm_fires(old(self).pending(), path@),
            r matches Some(e) ==> e@ == (SpecEvent {
                event_type: EventType::Deleted,
                path: path@,
                previous_path: None,
                timestamp: now,
            }),
    {
        let live = self.registry.try_take(path);
        if live {
            let e = ClassifiedEvent {
                event_type: EventType::Deleted,
                path: path.to_owned(),
                previous_path: None,
                timestamp: now,
            };
            Some(e)
        } else {
            None
        }
    }
}

} // verus!
