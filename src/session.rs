//! The running examination: routes keys to the component that owns the current
//! mode and actions between components.
use vstd::prelude::*;
use crate::action::{Action, ConfirmEvent, Key};
use crate::alert::Alert;
use crate::error::ExamError;
use crate::examination::{every_answered, total_points, Examination, State};
use crate::question::capped;
use crate::timer::remaining_secs;
use crate::mode::{Mode, ModeHolder};
use crate::timer::Timer;
use crate::user_input::UserInput;

verus! {

/// The components of a running examination and the mode they share.
pub struct Session {
    examination: Examination,
    alert: Alert,
    user_input: UserInput,
    mode: ModeHolder,
    timer: Timer,
    time_up_sent: bool,
}

impl Session {
    pub closed spec fn wf(&self) -> bool {
        self.examination.wf() && self.user_input.wf()
    }

    pub closed spec fn exam(&self) -> Examination {
        self.examination
    }

    pub closed spec fn mode_now(&self) -> Mode {
        self.mode.view()
    }

    pub closed spec fn countdown(&self) -> Timer {
        self.timer
    }

    /// The answer surface's state.
    pub closed spec fn surface(&self) -> UserInput {
        self.user_input
    }

    /// The examination was submitted because the time was up.
    pub closed spec fn submitted_on_time_up(&self) -> bool {
        self.time_up_sent
    }

    /// The alert component's state.
    pub closed spec fn shown(&self) -> Alert {
        self.alert
    }

    /// A session in the browsing mode.
    pub fn new(examination: Examination, user_input: UserInput, timer: Timer) -> (r: Session)
        requires
            examination.wf(),
            user_input.wf(),
        ensures
            r.wf(),
            !r.submitted_on_time_up(),
            r.exam() == examination,
            r.mode_now() == Mode::Examination,
            r.countdown() == timer,
    {
        Session {
            examination,
            alert: Alert::new(),
            user_input,
            mode: ModeHolder::new(),
            timer,
            time_up_sent: false,
        }
    }

    /// The examination.
    pub fn examination(&self) -> (r: &Examination)
        ensures
            *r == self.exam(),
    {
        &self.examination
    }

    /// The alert component.
    pub fn alert(&self) -> (r: &Alert)
        ensures
            *r == self.shown(),
    {
        &self.alert
    }

    /// The answer surface.
    pub fn user_input(&self) -> (r: &UserInput)
        ensures
            *r == self.surface(),
    {
        &self.user_input
    }

    /// The current mode.
    pub fn mode(&self) -> (r: Mode)
        ensures
            r == self.mode_now(),
    {
        self.mode.get_mode()
    }

    /// The countdown.
    pub fn timer(&self) -> (r: &Timer)
        ensures
            *r == self.countdown(),
    {
        &self.timer
    }

    /// Hands an action to the examination, and an alert it raises to the alert
    /// component: submitting with every question answered, or confirming a
    /// submission, scores at once and shows the score; submitting with questions
    /// left asks for confirmation; confirming the score ends the examination.
    /// Submitting is heard only while the user is browsing.
    pub fn dispatch(&mut self, action: Action)
        requires
            old(self).wf(),
        ensures
            final(self).wf(),
            final(self).exam().lists() == old(self).exam().lists(),
            final(self).exam().pending() == old(self).exam().pending(),
            final(self).countdown() == old(self).countdown(),
            final(self).submitted_on_time_up() == old(self).submitted_on_time_up(),
            (action is Submit && old(self).mode_now() == Mode::Examination && every_answered(old(self).exam().lists())
                || action == Action::Confirm(ConfirmEvent::Submit)) && old(self).exam().phase() == State::Ing
                ==> final(self).exam().final_score() == Some(capped(total_points(old(self).exam().lists())) as u64)
                && final(self).mode_now() == Mode::Alert && final(self).shown().confirm_event == ConfirmEvent::Score,
            action is Submit && old(self).mode_now() == Mode::Examination && !every_answered(old(self).exam().lists())
                && old(self).exam().phase() == State::Ing
                ==> final(self).exam().final_score() == old(self).exam().final_score()
                && final(self).mode_now() == Mode::Alert && final(self).shown().confirm_event == ConfirmEvent::Submit,
            action is Submit && old(self).mode_now() != Mode::Examination ==> final(self).exam() == old(self).exam()
                && final(self).mode_now() == old(self).mode_now(),
            action == Action::Confirm(ConfirmEvent::Score) ==> final(self).exam().phase() == State::End
                && final(self).mode_now() == Mode::Examination,
    {
        match action {
            Action::Alert(msg, tag) => {
                self.alert.update(Action::Alert(msg, tag), &mut self.mode);
            },
            Action::Submit => {
                if self.mode.get_mode() == Mode::Examination {
                    match self.examination.update(Action::Submit, &mut self.mode) {
                        Some(next) => {
                            self.alert.update(next, &mut self.mode);
                        },
                        None => {},
                    }
                }
            },
            other => {
                match self.examination.update(other, &mut self.mode) {
                    Some(next) => {
                        self.alert.update(next, &mut self.mode);
                    },
                    None => {},
                }
            },
        }
    }

    /// Hands a key to the component that owns the current mode, and routes the
    /// action it raises.
    pub fn handle_key(&mut self, key: Key) -> (r: Result<(), ExamError>)
        requires
            old(self).wf(),
        ensures
            final(self).wf(),
            old(self).mode_now() == Mode::Alert && key == Key::Esc ==> r is Ok
                && final(self).mode_now() == Mode::Examination && final(self).exam() == old(self).exam(),
            old(self).mode_now() == Mode::Alert && key == Key::Enter && old(self).exam().phase() == State::Ing
                && old(self).shown().confirm_event == ConfirmEvent::Submit
                ==> final(self).exam().final_score() == Some(capped(total_points(old(self).exam().lists())) as u64)
                && final(self).mode_now() == Mode::Alert && final(self).shown().confirm_event == ConfirmEvent::Score,
            old(self).mode_now() == Mode::Alert && key == Key::Enter && old(self).shown().confirm_event == ConfirmEvent::Score
                ==> final(self).exam().phase() == State::End && final(self).mode_now() == Mode::Examination,
            old(self).mode_now() == Mode::Examination && key == Key::Enter && old(self).exam().cursor() is None
                ==> r is Ok && final(self).mode_now() == Mode::Examination
                && final(self).exam().pending() == old(self).exam().pending(),
    {
        let raised = match self.mode.get_mode() {
            Mode::Examination => self.examination.handle_key_event(key, &mut self.mode),
            Mode::Input => self.user_input.handle_key_event(key, &self.mode),
            Mode::Alert => Ok(self.alert.handle_key_event(key, &mut self.mode)),
        };
        match raised {
            Ok(Some(action)) => {
                self.dispatch(action);
                Ok(())
            },
            Ok(None) => Ok(()),
            Err(e) => Err(e),
        }
    }

    /// One refresh at time `now`: the answer surface takes a waiting question,
    /// the examination merges a waiting answer, and once the time is up the
    /// examination is submitted, once, as soon as the user is browsing.
    pub fn tick(&mut self, now: i64) -> (r: Result<(), ExamError>)
        requires
            old(self).wf(),
        ensures
            final(self).wf(),
            final(self).countdown() == old(self).countdown(),
            remaining_secs(old(self).countdown().start(), old(self).countdown().length(), now) > 0
                ==> final(self).exam().final_score() == old(self).exam().final_score()
                && final(self).exam().phase() == old(self).exam().phase(),
            remaining_secs(old(self).countdown().start(), old(self).countdown().length(), now) == 0
                && !old(self).submitted_on_time_up() && old(self).exam().phase() == State::Ing
                && old(self).mode_now() == Mode::Examination && old(self).exam().pending() is None
                ==> final(self).submitted_on_time_up() && final(self).mode_now() == Mode::Alert
                && if every_answered(old(self).exam().lists()) {
                    final(self).exam().final_score() == Some(capped(total_points(old(self).exam().lists())) as u64)
                        && final(self).shown().confirm_event == ConfirmEvent::Score
                } else {
                    final(self).exam().final_score() == old(self).exam().final_score()
                        && final(self).shown().confirm_event == ConfirmEvent::Submit
                },
    {
        self.user_input.poll_request(&self.mode);
        let merged = self.examination.poll_answer(&mut self.mode);
        if self.timer.expired_at(now) && !self.time_up_sent && self.examination.state() == State::Ing
            && self.mode.get_mode() == Mode::Examination {
            self.time_up_sent = true;
            self.dispatch(Action::Submit);
        }
        match merged {
            Ok(_) => Ok(()),
            Err(e) => Err(e),
        }
    }
}

} // verus!
