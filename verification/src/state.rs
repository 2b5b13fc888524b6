//! The composed-text buffer a conversion call works on.

use vstd::prelude::*;
use vstd::string::StringExecFns;

verus! {

/// View of a [`ModeState`]: the in-progress composed text and the text
/// committed so far, as character sequences.
pub struct ModeStateView {
    pub preedit: Seq<char>,
    pub committed: Seq<char>,
}

/// The composed-text buffer: the in-progress text a user is constructing
/// and the text committed so far. The caller owns it and lends it to a
/// capability operation by exclusive mutable reference for the duration of
/// the call; the capability never keeps it.
pub struct ModeState {
    /// In-progress composed text, read by conversion requests.
    pub preedit: String,
    /// Text committed so far; conversions replace or append to it.
    pub committed: String,
}

impl View for ModeState {
    type V = ModeStateView;

    open spec fn view(&self) -> ModeStateView {
        ModeStateView { preedit: self.preedit@, committed: self.committed@ }
    }
}

impl ModeState {
    /// A buffer holding `preedit` as the composed text and nothing committed.
    pub fn new(preedit: String) -> (s: Self)
        ensures
            s@.preedit == preedit@,
            s@.committed == Seq::<char>::empty(),
    {
        ModeState { preedit, committed: String::new() }
    }

    /// The current composed text.
    pub fn preedit_str(&self) -> (r: &str)
        ensures
            r@ == self@.preedit,
    {
        self.preedit.as_str()
    }

    /// Replace the committed text with `s`; the composed text is untouched.
    pub fn pass_replace(&mut self, s: &str)
        ensures
            final(self)@.committed == s@,
            final(self)@.preedit == old(self)@.preedit,
    {
        self.committed = s.to_owned();
    }

    /// Append `s` to the committed text; the composed text is untouched.
    pub fn pass(&mut self, s: &str)
        ensures
            final(self)@.committed == old(self)@.committed + s@,
            final(self)@.preedit == old(self)@.preedit,
    {
        self.committed.append(s);
    }
}

} // verus!
