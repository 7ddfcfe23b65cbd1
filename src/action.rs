//! Keys, actions and alert tags exchanged between the components.
use vstd::prelude::*;

verus! {

/// What confirming an alert means.
#[derive(Clone, Copy, Debug, PartialEq, Eq, Structural)]
pub enum ConfirmEvent {
    /// Submit although questions are unanswered.
    Submit,
    /// Acknowledge the final score.
    Score,
    /// Nothing follows.
    Nothing,
}

/// A key as the components see it.
#[derive(Clone, Copy, Debug, PartialEq, Eq, Structural)]
pub enum Key {
    Up,
    Down,
    Left,
    Right,
    Enter,
    Esc,
    Tab,
    Backspace,
    Char(char),
    Other,
}

/// A request passed between components.
#[derive(Clone, Debug)]
pub enum Action {
    /// Hand in the examination.
    Submit,
    /// Show a message; confirming it raises `Confirm` with the tag.
    Alert(String, ConfirmEvent),
    /// The shown alert was confirmed.
    Confirm(ConfirmEvent),
}

} // verus!
