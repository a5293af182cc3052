//! The domain event taxonomy: the kinds of filesystem events the classifier
//! can derive, and the records that carry them.

use vstd::prelude::*;

verus! {

/// The kinds of domain events. `Copied` is part of the taxonomy but is never
/// produced by the classifier: no notification kind maps to it.
#[derive(Debug, Clone, Copy, PartialEq, Eq, Structural)]
pub enum EventType {
    Created,
    Renamed,
    Deleted,
    Moved,
    Copied,
}

impl EventType {
    /// The display name of each event kind.
    pub open spec fn spec_name(&self) -> Seq<char> {
        match self {
            EventType::Created => "Created"@,
            EventType::Renamed => "Renamed"@,
            EventType::Deleted => "Deleted"@,
            EventType::Moved => "Moved"@,
            EventType::Copied => "Copied"@,
        }
    }

    pub fn to_string(&self) -> (r: String)
        ensures
            r@ == self.spec_name(),
    {
        match self {
            EventType::Created => "Created".to_owned(),
            EventType::Renamed => "Renamed".to_owned(),
            EventType::Deleted => "Deleted".to_owned(),
            EventType::Moved => "Moved".to_owned(),
            EventType::Copied => "Copied".to_owned(),
        }
    }
}

/// A minimal event record: a kind and the path it concerns.
#[derive(Debug, Clone)]
pub struct Event {
    pub e_type: EventType,
    pub path: String,
}

impl Event {
    pub fn new(e_type: EventType, path: String) -> (r: Self)
        ensures
            r.e_type == e_type,
            r.path@ == path@,
    {
        Self { e_type, path }
    }
}

/// A fully classified event, immutable once produced: the kind, the path it
/// concerns, the previous path for renames and moves, and the time at which
/// it was classified (milliseconds, as supplied by the caller's clock).
#[derive(Debug, Clone)]
pub struct ClassifiedEvent {
    pub event_type: EventType,
    pub path: String,
    pub previous_path: Option<String>,
    pub timestamp: u64,
}

/// The mathematical shape of a classified event: what a `ClassifiedEvent`
/// holds, over character sequences.
pub ghost struct SpecEvent {
    pub event_type: EventType,
    pub path: Seq<char>,
    pub previous_path: Option<Seq<char>>,
    pub timestamp: u64,
}

impl View for ClassifiedEvent {
    type V = SpecEvent;

    open spec fn view(&self) -> SpecEvent {
        SpecEvent {
            event_type: self.event_type,
            path: self.path@,
            previous_path: match self.previous_path {
                Some(p) => Some(p@),
                None => None,
            },
            timestamp: self.timestamp,
        }
    }
}

} // verus!
