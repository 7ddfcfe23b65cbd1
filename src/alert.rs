//! A blocking message that the user confirms or dismisses.
use vstd::prelude::*;
use crate::action::{Action, ConfirmEvent, Key};
use crate::mode::{Mode, ModeHolder};

verus! {

/// The alert component: the message on show and what confirming it means.
pub struct Alert {
    /// The message.
    pub msg: String,
    /// What confirming the message means.
    pub confirm_event: ConfirmEvent,
}

impl Alert {
    /// An alert with no message that means nothing when confirmed.
    pub fn new() -> (r: Alert)
        ensures
            r.msg@.len() == 0,
            r.confirm_event == ConfirmEvent::Nothing,
    {
        Alert { msg: String::new(), confirm_event: ConfirmEvent::Nothing }
    }

    /// Dismisses the message: from the alert mode back to browsing; in other
    /// modes nothing changes.
    pub fn close(&mut self, mode: &mut ModeHolder)
        ensures
            final(mode).view() == if old(mode).view() == Mode::Alert { Mode::Examination } else { old(mode).view() },
            *final(self) == *old(self),
    {
        mode.try_set(Mode::Alert, Mode::Examination);
    }

    /// While a message is shown, Enter confirms it (back to browsing, raising
    /// `Confirm` with the tag) and Esc dismisses it; other keys and other modes
    /// do nothing.
    pub fn handle_key_event(&mut self, key: Key, mode: &mut ModeHolder) -> (r: Option<Action>)
        ensures
            *final(self) == *old(self),
            old(mode).view() == Mode::Alert && key == Key::Enter ==> final(mode).view() == Mode::Examination
                && r == Some(Action::Confirm(old(self).confirm_event)),
            old(mode).view() == Mode::Alert && key == Key::Esc ==> final(mode).view() == Mode::Examination
                && r is None,
            !(old(mode).view() == Mode::Alert && (key == Key::Enter || key == Key::Esc))
                ==> final(mode).view() == old(mode).view() && r is None,
    {
        if mode.get_mode() == Mode::Alert {
            match key {
                Key::Enter => {
                    self.close(mode);
                    Some(Action::Confirm(self.confirm_event))
                },
                Key::Esc => {
                    self.close(mode);
                    None
                },
                _ => None,
            }
        } else {
            None
        }
    }

    /// Shows the message of an `Alert` action when the user is browsing; other
    /// actions, and alerts in other modes, change nothing. Returns whether it showed.
    pub fn update(&mut self, action: Action, mode: &mut ModeHolder) -> (shown: bool)
        ensures
            shown == (action is Alert && old(mode).view() == Mode::Examination),
            shown ==> final(mode).view() == Mode::Alert && final(self).msg == action->Alert_0
                && final(self).confirm_event == action->Alert_1,
            !shown ==> final(mode).view() == old(mode).view() && *final(self) == *old(self),
    {
        match action {
            Action::Alert(msg, confirm_event) => {
                if mode.try_set(Mode::Examination, Mode::Alert) {
                    self.msg = msg;
                    self.confirm_event = confirm_event;
                    true
                } else {
                    false
                }
            },
            _ => false,
        }
    }
}

} // verus!
