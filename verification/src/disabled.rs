//! The zero-footprint stand-in for builds that ship without the console.
//!
//! This [`Console`] offers the same interface as [`crate::Console`] but
//! carries no storage: every mutator does nothing and every query returns its
//! empty or zero default, whatever was called before. An application selects
//! the full console or this stand-in once, when it is composed.

use vstd::prelude::*;

verus! {

/// A console that holds nothing and reacts to nothing.
#[derive(Clone, PartialEq, Eq)]
pub struct Console;

impl Console {
    /// The one value of the disabled console.
    pub fn new() -> Console {
        Console
    }

    /// The disabled console never reacts to input.
    pub fn enabled(&self) -> (active: bool)
        ensures
            !active,
    {
        false
    }

    /// Applies the caller's parse function to the empty string: the displayed
    /// text is always empty, and no history is kept, so nothing is committed.
    pub fn confirm<Cmd, CmdErr, F: Fn(&str) -> Result<Cmd, CmdErr>>(&mut self, parse: F) -> (outcome:
        Result<Cmd, CmdErr>)
        requires
            forall|t: &str| t@ == Seq::<char>::empty() ==> #[trigger] call_requires(parse, (t,)),
        ensures
            *final(self) == *old(self),
            exists|t: &str|
                t@ == Seq::<char>::empty() && #[trigger] call_ensures(parse, (t,), outcome),
    {
        let displayed = self.entry();
        parse(displayed)
    }

    /// The displayed text is always empty.
    pub fn entry(&self) -> (text: &str)
        ensures
            text@ == Seq::<char>::empty(),
    {
        proof {
            reveal_strlit("");
        }
        ""
    }

    /// The history is always empty.
    pub fn history(&self) -> (entries: Vec<String>)
        ensures
            entries@ == Seq::<String>::empty(),
    {
        Vec::new()
    }

    /// The history is always empty.
    pub fn history_deduped(&self) -> (entries: Vec<String>)
        ensures
            entries@ == Seq::<String>::empty(),
    {
        Vec::new()
    }

    /// The history is always empty.
    pub fn history_len(&self) -> (count: usize)
        ensures
            count == 0,
    {
        0
    }

    /// The disabled console is never shown.
    pub fn shown(&self) -> (visible: bool)
        ensures
            !visible,
    {
        false
    }

    /// Does nothing: there is no buffer to set.
    pub fn set_entry(&mut self, _entry: String)
        ensures
            *final(self) == *old(self),
    {
    }

    /// Does nothing: there is no buffer to edit.
    pub fn receive_char(&mut self, _ch: char)
        ensures
            *final(self) == *old(self),
    {
    }

    /// Rejects every character without consulting the filter.
    pub fn receive_char_if<F: Fn(char) -> bool>(&mut self, _ch: char, _filter: F) -> (accepted:
        bool)
        ensures
            *final(self) == *old(self),
            !accepted,
    {
        false
    }

    /// Does nothing: there is no buffer to edit.
    pub fn backspace(&mut self)
        ensures
            *final(self) == *old(self),
    {
    }

    /// Does nothing: there is no buffer to clear.
    pub fn clear(&mut self)
        ensures
            *final(self) == *old(self),
    {
    }

    /// Does nothing: there is no history to clear.
    pub fn clear_history(&mut self)
        ensures
            *final(self) == *old(self),
    {
    }

    /// Never moves: there is no history to browse.
    pub fn up(&mut self) -> (moved: bool)
        ensures
            *final(self) == *old(self),
            !moved,
    {
        false
    }

    /// Never moves: there is no history to browse.
    pub fn down(&mut self) -> (moved: bool)
        ensures
            *final(self) == *old(self),
            !moved,
    {
        false
    }

    /// Never moves: there is no history to browse.
    pub fn up_deduped(&mut self) -> (moved: bool)
        ensures
            *final(self) == *old(self),
            !moved,
    {
        false
    }

    /// Never moves: there is no history to browse.
    pub fn down_deduped(&mut self) -> (moved: bool)
        ensures
            *final(self) == *old(self),
            !moved,
    {
        false
    }

    /// Does nothing: the disabled console is never shown.
    pub fn show(&mut self)
        ensures
            *final(self) == *old(self),
    {
    }

    /// Does nothing: the disabled console is never shown.
    pub fn conceal(&mut self)
        ensures
            *final(self) == *old(self),
    {
    }

    /// Does nothing: the disabled console is never shown.
    pub fn toggle_shown(&mut self)
        ensures
            *final(self) == *old(self),
    {
    }
}

impl Default for Console {
    /// The same value as [`Console::new`].
    fn default() -> Console {
        Console
    }
}

} // verus!
