//! The session-wide mode that gates which component handles input.
use vstd::prelude::*;

verus! {

/// What the user is doing.
#[derive(Clone, Copy, Debug, PartialEq, Eq, Structural)]
pub enum Mode {
    /// Browsing and navigating questions.
    Examination,
    /// Answering one question.
    Input,
    /// Looking at a blocking message.
    Alert,
}

/// The transitions the mode may take.
pub open spec fn legal(from: Mode, to: Mode) -> bool {
    match (from, to) {
        (Mode::Examination, Mode::Input) => true,
        (Mode::Input, Mode::Examination) => true,
        (Mode::Examination, Mode::Alert) => true,
        (Mode::Alert, Mode::Examination) => true,
        _ => false,
    }
}

/// Holder of the current mode; every change goes through a checked transition.
#[derive(Debug)]
pub struct ModeHolder {
    mode: Mode,
}

impl ModeHolder {
    pub closed spec fn view(&self) -> Mode {
        self.mode
    }

    /// A holder in the browsing mode.
    pub fn new() -> (r: ModeHolder)
        ensures
            r.view() == Mode::Examination,
    {
        ModeHolder { mode: Mode::Examination }
    }

    /// The current mode.
    pub fn get_mode(&self) -> (r: Mode)
        ensures
            r == self.view(),
    {
        self.mode
    }

    /// Moves from `from` to `to` when the mode is `from` and the transition is legal;
    /// otherwise leaves the mode as it is. Returns whether it moved.
    pub fn try_set(&mut self, from: Mode, to: Mode) -> (moved: bool)
        ensures
            moved == (old(self).view() == from && legal(from, to)),
            final(self).view() == if moved { to } else { old(self).view() },
    {
        if self.mode == from && ModeHolder::is_legal(from, to) {
            self.mode = to;
            true
        } else {
            false
        }
    }

    /// Returns to browsing from whatever mode is current.
    pub fn set_examination(&mut self)
        ensures
            final(self).view() == Mode::Examination,
            old(self).view() != Mode::Examination ==> legal(old(self).view(), Mode::Examination),
    {
        self.mode = Mode::Examination;
    }

    /// Whether `from -> to` is a legal transition.
    pub fn is_legal(from: Mode, to: Mode) -> (r: bool)
        ensures
            r == legal(from, to),
    {
        match (from, to) {
            (Mode::Examination, Mode::Input) => true,
            (Mode::Input, Mode::Examination) => true,
            (Mode::Examination, Mode::Alert) => true,
            (Mode::Alert, Mode::Examination) => true,
            _ => false,
        }
    }
}

impl Default for ModeHolder {
    fn default() -> (r: ModeHolder)
        ensures
            r.view() == Mode::Examination,
    {
        ModeHolder::new()
    }
}

} // verus!
