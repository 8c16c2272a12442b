//! The console state machine.
//!
//! A [`Console`] owns the live buffer, the newest-first history of confirmed
//! entries, and the optional browsing cursor. Every method's contract is
//! stated over the [`ConsoleView`] model; the navigation contracts use the
//! step functions of [`crate::model`], which the lemmas in [`crate::laws`]
//! then reason about.

use crate::dedup::{dedup_adjacent, dedup_seq};
use crate::model::{down_pos, down_stop, text_views, up_pos, up_stop, ConsoleView};
use crate::strings;
use std::collections::VecDeque;
use vstd::prelude::*;

verus! {

/// The input state of a command console: an editable live buffer, the history
/// of confirmed entries (newest first), a browsing cursor, and an advisory
/// visibility flag.
///
/// Editing while browsing first copies ("forks") the browsed entry into the
/// live buffer, so confirmed history entries are never mutated.
#[derive(Clone, PartialEq, Eq)]
pub struct Console {
    shown: bool,
    buffer: String,
    history: VecDeque<String>,
    cursor: Option<usize>,
}

impl View for Console {
    type V = ConsoleView;

    closed spec fn view(&self) -> ConsoleView {
        ConsoleView {
            shown: self.shown,
            buffer: self.buffer@,
            history: text_views(self.history@),
            cursor: match self.cursor {
                Some(n) => Some(n as int),
                None => None,
            },
        }
    }
}

impl Console {
    /// The console's invariant: the browsing cursor, when set, points at a
    /// history entry. Every constructor establishes it and every method
    /// preserves it.
    pub open spec fn wf(&self) -> bool {
        self@.wf()
    }

    /// A fresh console: hidden, with an empty buffer, no history, and no
    /// browsing cursor.
    pub fn new() -> (console: Console)
        ensures
            console.wf(),
            console@.shown == false,
            console@.buffer == Seq::<char>::empty(),
            console@.history == Seq::<Seq<char>>::empty(),
            console@.cursor is None,
    {
        let console = Console {
            shown: false,
            buffer: String::new(),
            history: VecDeque::new(),
            cursor: None,
        };
        proof {
            assert(console@.history =~= Seq::<Seq<char>>::empty());
        }
        console
    }

    /// Whether this build of the console reacts to input at all. The
    /// full console always does; the stand-in in [`crate::disabled`] never
    /// does.
    pub fn enabled(&self) -> (active: bool)
        ensures
            active,
    {
        true
    }

    /// The currently displayed text: the browsed history entry while
    /// browsing, otherwise the live buffer.
    pub fn entry(&self) -> (text: &str)
        requires
            self.wf(),
        ensures
            text@ == self@.text(),
    {
        match self.cursor {
            Some(n) => self.history[n].as_str(),
            None => self.buffer.as_str(),
        }
    }

    /// Applies the caller's parse function to the displayed text and commits
    /// the live buffer to the front of the history, leaving an empty buffer
    /// in live editing mode. The parse verdict is returned unchanged; the
    /// commit happens whether or not the parse succeeded, so the history
    /// always grows by exactly one entry.
    ///
    /// Note that what is committed is the live buffer, not the displayed
    /// text: confirming while browsing, with no edit since, commits the
    /// buffer that browsing had left behind.
    pub fn confirm<Cmd, CmdErr, F: Fn(&str) -> Result<Cmd, CmdErr>>(&mut self, parse: F) -> (outcome:
        Result<Cmd, CmdErr>)
        requires
            old(self).wf(),
            forall|t: &str| t@ == old(self)@.text() ==> #[trigger] call_requires(parse, (t,)),
        ensures
            final(self).wf(),
            final(self)@.shown == old(self)@.shown,
            final(self)@.history == seq![old(self)@.buffer] + old(self)@.history,
            final(self)@.history.len() == old(self)@.history.len() + 1,
            final(self)@.buffer == Seq::<char>::empty(),
            final(self)@.cursor is None,
            exists|t: &str|
                t@ == old(self)@.text() && #[trigger] call_ensures(parse, (t,), outcome),
    {
        let displayed = self.entry();
        let outcome = parse(displayed);
        let committed = self.buffer.clone();
        self.buffer = String::new();
        self.history.push_front(committed);
        self.cursor = None;
        proof {
            assert(self@.history =~= seq![old(self)@.buffer] + old(self)@.history);
        }
        outcome
    }

    /// A snapshot of the confirmed entries, newest first.
    pub fn history(&self) -> (entries: Vec<String>)
        ensures
            text_views(entries@) == self@.history,
    {
        let mut entries: Vec<String> = Vec::new();
        let mut i: usize = 0;
        while i < self.history.len()
            invariant
                i <= self.history@.len(),
                entries@.len() == i,
                forall|j: int| 0 <= j < i ==> entries@[j]@ == self.history@[j]@,
            decreases self.history@.len() - i,
        {
            entries.push(self.history[i].clone());
            i = i + 1;
        }
        proof {
            assert(text_views(entries@) =~= self@.history);
        }
        entries
    }

    /// A snapshot of the confirmed entries, newest first, with each run of
    /// consecutive equal entries collapsed to one.
    pub fn history_deduped(&self) -> (entries: Vec<String>)
        ensures
            text_views(entries@) == dedup_seq(self@.history),
    {
        dedup_adjacent(&self.history)
    }

    /// The number of confirmed entries, duplicates included.
    pub fn history_len(&self) -> (count: usize)
        ensures
            count == self@.history.len(),
    {
        self.history.len()
    }

    /// Replaces the live buffer outright and returns to live editing mode.
    /// A browsed entry being displayed is discarded, not forked.
    pub fn set_entry(&mut self, entry: String)
        ensures
            final(self).wf(),
            final(self)@.shown == old(self)@.shown,
            final(self)@.history == old(self)@.history,
            final(self)@.cursor is None,
            final(self)@.buffer == entry@,
    {
        self.buffer = entry;
        self.cursor = None;
    }

    /// Returns to live editing mode, first copying a browsed entry into the
    /// live buffer so that the displayed text is preserved for editing.
    fn fork_to_live(&mut self)
        requires
            old(self).wf(),
        ensures
            final(self).wf(),
            final(self)@.shown == old(self)@.shown,
            final(self)@.history == old(self)@.history,
            final(self)@.cursor is None,
            final(self)@.buffer == old(self)@.text(),
    {
        if self.cursor.is_some() {
            let forked = self.entry().to_owned();
            self.buffer = forked;
            self.cursor = None;
        }
    }

    /// Appends one character to the displayed text, forking first if a
    /// history entry was being browsed.
    pub fn receive_char(&mut self, ch: char)
        requires
            old(self).wf(),
        ensures
            final(self).wf(),
            final(self)@.shown == old(self)@.shown,
            final(self)@.history == old(self)@.history,
            final(self)@.cursor is None,
            final(self)@.buffer == old(self)@.text().push(ch),
            final(self)@.text() == old(self)@.text().push(ch),
    {
        self.fork_to_live();
        strings::push_char(&mut self.buffer, ch);
    }

    /// Appends a text fragment to the displayed text, forking first if a
    /// history entry was being browsed.
    pub fn receive_text(&mut self, text: &str)
        requires
            old(self).wf(),
        ensures
            final(self).wf(),
            final(self)@.shown == old(self)@.shown,
            final(self)@.history == old(self)@.history,
            final(self)@.cursor is None,
            final(self)@.buffer == old(self)@.text() + text@,
            final(self)@.text() == old(self)@.text() + text@,
    {
        self.fork_to_live();
        strings::push_text(&mut self.buffer, text);
    }

    /// Appends the character only if `filter` accepts it; reports the
    /// filter's verdict. A rejected character leaves the console untouched.
    pub fn receive_char_if<F: Fn(char) -> bool>(&mut self, ch: char, filter: F) -> (accepted:
        bool)
        requires
            old(self).wf(),
            call_requires(filter, (ch,)),
        ensures
            final(self).wf(),
            call_ensures(filter, (ch,), accepted),
            accepted ==> final(self)@.shown == old(self)@.shown
                && final(self)@.history == old(self)@.history && final(self)@.cursor is None
                && final(self)@.text() == old(self)@.text().push(ch),
            !accepted ==> final(self)@ == old(self)@,
    {
        let accept = filter(ch);
        if accept {
            self.receive_char(ch);
        }
        accept
    }

    /// Appends the text fragment only if `filter` accepts it; reports the
    /// filter's verdict. A rejected fragment leaves the console untouched.
    pub fn receive_text_if<F: Fn(&str) -> bool>(&mut self, text: &str, filter: F) -> (accepted:
        bool)
        requires
            old(self).wf(),
            call_requires(filter, (text,)),
        ensures
            final(self).wf(),
            call_ensures(filter, (text,), accepted),
            accepted ==> final(self)@.shown == old(self)@.shown
                && final(self)@.history == old(self)@.history && final(self)@.cursor is None
                && final(self)@.text() == old(self)@.text() + text@,
            !accepted ==> final(self)@ == old(self)@,
    {
        let accept = filter(text);
        if accept {
            self.receive_text(text);
        }
        accept
    }

    /// Removes the last character of the displayed text, forking first if a
    /// history entry was being browsed. Does nothing to an empty text.
    pub fn backspace(&mut self)
        requires
            old(self).wf(),
        ensures
            final(self).wf(),
            final(self)@.shown == old(self)@.shown,
            final(self)@.history == old(self)@.history,
            final(self)@.cursor is None,
            old(self)@.text().len() == 0 ==> final(self)@.text() == old(self)@.text(),
            old(self)@.text().len() > 0 ==> final(self)@.text() == old(self)@.text().drop_last(),
    {
        self.fork_to_live();
        strings::pop_char(&mut self.buffer);
    }

    /// Empties the live buffer. The cursor does not move: clearing while
    /// browsing clears the buffer underneath, not the displayed entry.
    pub fn clear(&mut self)
        ensures
            final(self).wf() == old(self).wf(),
            final(self)@.shown == old(self)@.shown,
            final(self)@.history == old(self)@.history,
            final(self)@.cursor == old(self)@.cursor,
            final(self)@.buffer == Seq::<char>::empty(),
    {
        self.buffer = String::new();
    }

    /// Empties the history. The cursor returns to live editing mode, since
    /// any browsed entry is gone.
    pub fn clear_history(&mut self)
        ensures
            final(self).wf(),
            final(self)@.shown == old(self)@.shown,
            final(self)@.buffer == old(self)@.buffer,
            final(self)@.history == Seq::<Seq<char>>::empty(),
            final(self)@.cursor is None,
    {
        self.history.clear();
        self.cursor = None;
        proof {
            assert(self@.history =~= Seq::<Seq<char>>::empty());
        }
    }

    /// Moves the cursor one step toward older entries, clamped at the oldest;
    /// from live editing mode it moves to the newest entry. Reports whether
    /// it moved.
    pub fn up(&mut self) -> (moved: bool)
        requires
            old(self).wf(),
        ensures
            final(self).wf(),
            final(self)@.shown == old(self)@.shown,
            final(self)@.buffer == old(self)@.buffer,
            final(self)@.history == old(self)@.history,
            final(self)@.pos() == up_pos(old(self)@.history.len() as int, old(self)@.pos()),
            moved == (old(self)@.pos() + 1 < old(self)@.history.len()),
    {
        match self.cursor {
            None => {
                if self.history.len() > 0 {
                    self.cursor = Some(0);
                    true
                } else {
                    false
                }
            },
            Some(n) => {
                let len = self.history.len();
                if n + 1 < len {
                    self.cursor = Some(n + 1);
                    true
                } else {
                    false
                }
            },
        }
    }

    /// Moves the cursor one step toward newer entries; from the newest entry
    /// it returns to live editing mode, where it stays. Reports whether it
    /// moved.
    pub fn down(&mut self) -> (moved: bool)
        requires
            old(self).wf(),
        ensures
            final(self).wf(),
            final(self)@.shown == old(self)@.shown,
            final(self)@.buffer == old(self)@.buffer,
            final(self)@.history == old(self)@.history,
            final(self)@.pos() == down_pos(old(self)@.pos()),
            moved == (old(self)@.pos() >= 0),
    {
        match self.cursor {
            Some(n) => {
                if n > 0 {
                    self.cursor = Some(n - 1);
                } else {
                    self.cursor = None;
                }
                true
            },
            None => false,
        }
    }

    /// Repeats [`Console::up`] while the displayed text still equals the text
    /// displayed at the call, so that runs of duplicate entries are skipped.
    /// Reports whether the displayed text changed.
    pub fn up_deduped(&mut self) -> (moved: bool)
        requires
            old(self).wf(),
        ensures
            final(self).wf(),
            final(self)@.shown == old(self)@.shown,
            final(self)@.buffer == old(self)@.buffer,
            final(self)@.history == old(self)@.history,
            final(self)@.pos() == up_stop(old(self)@.history, old(self)@.text(), old(self)@.pos()),
            moved == (final(self)@.text() != old(self)@.text()),
    {
        let ghost orig = self@;
        let starting_entry = self.entry().to_owned();
        loop
            invariant_except_break
                up_stop(orig.history, orig.text(), self@.pos()) == up_stop(
                    orig.history,
                    orig.text(),
                    orig.pos(),
                ),
            invariant
                self.wf(),
                self@.shown == orig.shown,
                self@.buffer == orig.buffer,
                self@.history == orig.history,
                starting_entry@ == orig.text(),
                orig.wf(),
                orig.pos() <= self@.pos(),
            ensures
                self.wf(),
                self@.shown == orig.shown,
                self@.buffer == orig.buffer,
                self@.history == orig.history,
                self@.pos() == up_stop(orig.history, orig.text(), orig.pos()),
            decreases self@.history.len() - self@.pos(),
        {
            let stepped = self.up();
            if !stepped {
                break ;
            }
            let current = self.entry().to_owned();
            if !(current == starting_entry) {
                break ;
            }
        }
        let ending = self.entry().to_owned();
        !(ending == starting_entry)
    }

    /// Repeats [`Console::down`] while the displayed text still equals the
    /// text displayed at the call, so that runs of duplicate entries are
    /// skipped. Reports whether the displayed text changed.
    pub fn down_deduped(&mut self) -> (moved: bool)
        requires
            old(self).wf(),
        ensures
            final(self).wf(),
            final(self)@.shown == old(self)@.shown,
            final(self)@.buffer == old(self)@.buffer,
            final(self)@.history == old(self)@.history,
            final(self)@.pos() == down_stop(
                old(self)@.history,
                old(self)@.text(),
                old(self)@.pos(),
            ),
            moved == (final(self)@.text() != old(self)@.text()),
    {
        let ghost orig = self@;
        let starting_entry = self.entry().to_owned();
        loop
            invariant_except_break
                down_stop(orig.history, orig.text(), self@.pos()) == down_stop(
                    orig.history,
                    orig.text(),
                    orig.pos(),
                ),
            invariant
                self.wf(),
                self@.shown == orig.shown,
                self@.buffer == orig.buffer,
                self@.history == orig.history,
                starting_entry@ == orig.text(),
                orig.wf(),
                self@.pos() <= orig.pos(),
            ensures
                self.wf(),
                self@.shown == orig.shown,
                self@.buffer == orig.buffer,
                self@.history == orig.history,
                self@.pos() == down_stop(orig.history, orig.text(), orig.pos()),
            decreases self@.pos() + 1,
        {
            let stepped = self.down();
            if !stepped {
                break ;
            }
            let current = self.entry().to_owned();
            if !(current == starting_entry) {
                break ;
            }
        }
        let ending = self.entry().to_owned();
        !(ending == starting_entry)
    }

    /// Whether the host should render the console. Advisory only: it gates
    /// nothing here.
    pub fn shown(&self) -> (visible: bool)
        ensures
            visible == self@.shown,
    {
        self.shown
    }

    /// Marks the console visible.
    pub fn show(&mut self)
        ensures
            final(self).wf() == old(self).wf(),
            final(self)@ == (ConsoleView { shown: true, ..old(self)@ }),
    {
        self.shown = true;
    }

    /// Marks the console hidden.
    pub fn conceal(&mut self)
        ensures
            final(self).wf() == old(self).wf(),
            final(self)@ == (ConsoleView { shown: false, ..old(self)@ }),
    {
        self.shown = false;
    }

    /// Flips the visibility flag.
    pub fn toggle_shown(&mut self)
        ensures
            final(self).wf() == old(self).wf(),
            final(self)@ == (ConsoleView { shown: !old(self)@.shown, ..old(self)@ }),
    {
        self.shown = !self.shown;
    }
}

impl Default for Console {
    /// The same state as [`Console::new`].
    fn default() -> (console: Console)
        ensures
            console.wf(),
            console@.shown == false,
            console@.buffer == Seq::<char>::empty(),
            console@.history == Seq::<Seq<char>>::empty(),
            console@.cursor is None,
    {
        Console::new()
    }
}

} // verus!
