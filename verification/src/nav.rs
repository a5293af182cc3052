//! The viewer's navigation decisions: row selection that wraps around the
//! table, the three-page swipe cycle, and the mapping from a key press to
//! an action. The terminal front end applies these decisions to its widget
//! state; the decisions themselves are made here.

use vstd::prelude::*;

verus! {

/// The number of swipe pages the table cycles through.
pub const SWIPE_PAGES: i8 = 3;

/// The row selected after stepping down from `selected` in a table of
/// `len` rows: one past the current row, wrapping to the top from the last
/// row, and the top row when nothing was selected.
pub open spec fn spec_next_row(selected: Option<usize>, len: nat) -> nat {
    match selected {
        Some(i) => if i >= len - 1 {
            0
        } else {
            i as nat + 1
        },
        None => 0,
    }
}

/// The row selected after stepping up from `selected`: one before the
/// current row, wrapping to the bottom from the top row, and the top row
/// when nothing was selected.
pub open spec fn spec_previous_row(selected: Option<usize>, len: nat) -> nat {
    match selected {
        Some(i) => if i == 0 {
            (len - 1) as nat
        } else {
            (i - 1) as nat
        },
        None => 0,
    }
}

/// Step the row selection down, wrapping around.
pub fn next_row(selected: Option<usize>, len: usize) -> (r: usize)
    requires
        len >= 1,
    ensures
        r == spec_next_row(selected, len as nat),
        r < len,
{
    match selected {
        Some(i) => if i >= len - 1 {
            0
        } else {
            i + 1
        },
        None => 0,
    }
}

/// Step the row selection up, wrapping around.
pub fn previous_row(selected: Option<usize>, len: usize) -> (r: usize)
    requires
        len >= 1,
        selected matches Some(i) ==> i < len,
    ensures
        r == spec_previous_row(selected, len as nat),
        r < len,
{
    match selected {
        Some(i) => if i == 0 {
            len - 1
        } else {
            i - 1
        },
        None => 0,
    }
}

/// The swipe page after paging right: the next page, wrapping to the first
/// after the last.
pub fn increment_swipe_page(page: i8) -> (r: i8)
    requires
        0 <= page < SWIPE_PAGES,
    ensures
        r == if page == SWIPE_PAGES - 1 {
            0int
        } else {
            page + 1
        },
        0 <= r < SWIPE_PAGES,
{
    if page == SWIPE_PAGES - 1 {
        0
    } else {
        page + 1
    }
}

/// The swipe page after paging left: the previous page, wrapping to the
/// last before the first.
pub fn decrement_swipe_page(page: i8) -> (r: i8)
    requires
        0 <= page < SWIPE_PAGES,
    ensures
        r == if page == 0 {
            SWIPE_PAGES - 1
        } else {
            page - 1
        },
        0 <= r < SWIPE_PAGES,
{
    if page == 0 {
        SWIPE_PAGES - 1
    } else {
        page - 1
    }
}

/// The modifier held during a key press, as far as the decision table
/// distinguishes them.
#[derive(Debug, Clone, Copy, PartialEq, Eq, Structural)]
pub enum KeyModifier {
    Plain,
    Control,
    OtherModifier,
}

/// The keys the viewer reacts to.
#[derive(Debug, Clone, Copy, PartialEq, Eq, Structural)]
pub enum KeyInput {
    Character(char),
    Backspace,
    Up,
    Down,
    Left,
    Right,
    OtherKey,
}

/// What the viewer does in response to a key press.
#[derive(Debug, Clone, Copy, PartialEq, Eq, Structural)]
pub enum KeyAction {
    AppendSearchChar(char),
    PopSearchChar,
    Quit,
    NextRow,
    PreviousRow,
    SwipeLeft,
    SwipeRight,
    NoAction,
}

/// The key decision table: an unmodified character extends the search
/// text, backspace shortens it, control-q quits, the arrow keys move the
/// selection or swipe the page, and everything else does nothing.
pub open spec fn spec_key_action(modifier: KeyModifier, key: KeyInput) -> KeyAction {
    match (modifier, key) {
        (KeyModifier::Plain, KeyInput::Character(c)) => KeyAction::AppendSearchChar(c),
        (KeyModifier::Plain, KeyInput::Backspace) => KeyAction::PopSearchChar,
        (KeyModifier::Control, KeyInput::Character(c)) => if c == 'q' {
            KeyAction::Quit
        } else {
            KeyAction::NoAction
        },
        (KeyModifier::Plain, KeyInput::Down) => KeyAction::NextRow,
        (KeyModifier::Plain, KeyInput::Up) => KeyAction::PreviousRow,
        (KeyModifier::Plain, KeyInput::Left) => KeyAction::SwipeLeft,
        (KeyModifier::Plain, KeyInput::Right) => KeyAction::SwipeRight,
        _ => KeyAction::NoAction,
    }
}

/// Decide what a key press does.
pub fn key_action(modifier: KeyModifier, key: KeyInput) -> (r: KeyAction)
    ensures
        r == spec_key_action(modifier, key),
{
    match (modifier, key) {
        (KeyModifier::Plain, KeyInput::Character(c)) => KeyAction::AppendSearchChar(c),
        (KeyModifier::Plain, KeyInput::Backspace) => KeyAction::PopSearchChar,
        (KeyModifier::Control, KeyInput::Character(c)) => if c == 'q' {
            KeyAction::Quit
        } else {
            KeyAction::NoAction
        },
        (KeyModifier::Plain, KeyInput::Down) => KeyAction::NextRow,
        (KeyModifier::Plain, KeyInput::Up) => KeyAction::PreviousRow,
        (KeyModifier::Plain, KeyInput::Left) => KeyAction::SwipeLeft,
        (KeyModifier::Plain, KeyInput::Right) => KeyAction::SwipeRight,
        _ => KeyAction::NoAction,
    }
}

} // verus!
