//! The mathematical model of the console.
//!
//! A [`ConsoleView`] is the ghost value of a [`crate::Console`]: the visibility
//! flag, the live buffer, the history newest-first, and the browsing cursor.
//! The spec functions here describe every navigation step abstractly; the
//! executable methods promise to follow them, and the lemmas in [`crate::laws`]
//! reason about repeated steps.

use vstd::prelude::*;

verus! {

/// The state of a console: what a caller can observe through the interface.
///
/// `cursor` is `None` in live editing mode (the displayed text is `buffer`)
/// and `Some(n)` while browsing history entry `n`, where 0 is the newest
/// confirmed entry.
pub ghost struct ConsoleView {
    pub shown: bool,
    pub buffer: Seq<char>,
    pub history: Seq<Seq<char>>,
    pub cursor: Option<int>,
}

impl ConsoleView {
    /// The internal invariant: a browsing cursor always points at a history entry.
    pub open spec fn wf(self) -> bool {
        match self.cursor {
            Some(n) => 0 <= n < self.history.len(),
            None => true,
        }
    }

    /// The cursor as a single integer: -1 in live editing mode, the history
    /// index while browsing. Navigation is arithmetic on this position.
    pub open spec fn pos(self) -> int {
        match self.cursor {
            Some(n) => n,
            None => -1,
        }
    }

    /// The currently displayed text: the browsed history entry, or the live buffer.
    pub open spec fn text(self) -> Seq<char> {
        text_at(self.history, self.buffer, self.pos())
    }
}

/// The text displayed at position `p`: the live buffer at -1, else history entry `p`.
pub open spec fn text_at(history: Seq<Seq<char>>, buffer: Seq<char>, p: int) -> Seq<char> {
    if p >= 0 {
        history[p]
    } else {
        buffer
    }
}

/// One `up` step from position `p`: toward older entries, clamped at the oldest.
pub open spec fn up_pos(len: int, p: int) -> int {
    if p + 1 < len {
        p + 1
    } else {
        p
    }
}

/// One `down` step from position `p`: toward newer entries, clamped at live mode.
pub open spec fn down_pos(p: int) -> int {
    if p >= 0 {
        p - 1
    } else {
        -1
    }
}

/// Where `up_deduped` stops when the text displayed at the start was `start`:
/// keep moving up while movement is possible and the displayed text still
/// equals `start`.
pub open spec fn up_stop(history: Seq<Seq<char>>, start: Seq<char>, p: int) -> int
    decreases history.len() - p,
{
    if p + 1 >= history.len() {
        p
    } else if history[p + 1] != start {
        p + 1
    } else {
        up_stop(history, start, p + 1)
    }
}

/// Where `down_deduped` stops when the text displayed at the start was `start`:
/// keep moving down while movement is possible and the displayed text still
/// equals `start`. Movement below position 0 always ends in live mode, whose
/// buffer ends the walk whether or not it equals `start`.
pub open spec fn down_stop(history: Seq<Seq<char>>, start: Seq<char>, p: int) -> int
    decreases p,
{
    if p <= 0 {
        -1
    } else if history[p - 1] != start {
        p - 1
    } else {
        down_stop(history, start, p - 1)
    }
}

/// The views of a sequence of owned strings.
pub open spec fn text_views(entries: Seq<String>) -> Seq<Seq<char>> {
    Seq::new(entries.len(), |i: int| entries[i]@)
}

} // verus!
