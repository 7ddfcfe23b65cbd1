//! The answer surface: receives a question, edits its responses, hands it back.
use vstd::prelude::*;
use tokio::sync::mpsc::{UnboundedReceiver, UnboundedSender};
use crate::action::{Action, Key};
use crate::error::ExamError;
use crate::handshake::{poll, post};
use crate::mode::{Mode, ModeHolder};
use crate::question::{refilled_question, QuestionEnum};
use crate::text::{insert_char_at, inserted, remove_char_at, removed};

verus! {

/// The text of a response slot; an unset slot reads as empty.
pub open spec fn slot_text(slot: Option<String>) -> Seq<char> {
    match slot {
        Some(s) => s@,
        None => Seq::empty(),
    }
}

/// `after` is `before` with slot `k` set to `text` and every other slot kept.
pub open spec fn edited(before: Seq<Option<String>>, after: Seq<Option<String>>, k: int, text: Seq<char>) -> bool {
    &&& after.len() == before.len()
    &&& after[k] is Some && after[k]->0@ == text
    &&& forall|j: int| 0 <= j < before.len() && j != k ==> after[j] == before[j]
}

/// How the surface takes input.
#[derive(Clone, Copy, Debug, PartialEq, Eq, Structural)]
pub enum InputType {
    /// Free text, one box per slot.
    Fill,
    /// Yes or no.
    Judge,
}

/// The answer surface.
pub struct UserInput {
    /// The edited responses, one per slot.
    input: Vec<Option<String>>,
    /// The slot being edited.
    current_input_idx: Option<usize>,
    /// The question being answered.
    question: Option<QuestionEnum>,
    /// Cursor position, in characters, within the slot being edited.
    character_index: usize,
    question_rx: UnboundedReceiver<QuestionEnum>,
    answer_tx: UnboundedSender<QuestionEnum>,
    input_type: InputType,
}

impl UserInput {
    pub closed spec fn held(&self) -> Option<QuestionEnum> {
        self.question
    }

    pub closed spec fn inputs(&self) -> Seq<Option<String>> {
        self.input@
    }

    pub closed spec fn slot(&self) -> Option<usize> {
        self.current_input_idx
    }

    pub closed spec fn caret(&self) -> usize {
        self.character_index
    }

    pub closed spec fn kind_of_input(&self) -> InputType {
        self.input_type
    }

    /// The text of the slot being edited.
    pub open spec fn text(&self) -> Seq<char> {
        match self.slot() {
            Some(i) => slot_text(self.inputs()[i as int]),
            None => Seq::empty(),
        }
    }

    /// One edited response per slot of the held question, a current slot when
    /// there is any, and the cursor inside the current text.
    pub closed spec fn wf(&self) -> bool {
        &&& match self.question {
            Some(q) => {
                &&& self.input@.len() == q.slots().len()
                &&& match self.current_input_idx {
                    Some(i) => i < self.input@.len(),
                    None => self.input@.len() == 0,
                }
            },
            None => self.current_input_idx is None,
        }
        &&& self.character_index <= self.text().len()
    }

    /// A surface holding no question.
    pub fn new(question_rx: UnboundedReceiver<QuestionEnum>, answer_tx: UnboundedSender<QuestionEnum>) -> (r: UserInput)
        ensures
            r.wf(),
            r.held() is None,
            r.slot() is None,
            r.caret() == 0,
    {
        UserInput {
            input: vec![None],
            current_input_idx: None,
            question: None,
            character_index: 0,
            question_rx,
            answer_tx,
            input_type: InputType::Fill,
        }
    }

    /// The question being answered, if any.
    pub fn question(&self) -> (r: &Option<QuestionEnum>)
        ensures
            *r == self.held(),
    {
        &self.question
    }

    /// The edited responses.
    pub fn input(&self) -> (r: &Vec<Option<String>>)
        ensures
            r@ == self.inputs(),
    {
        &self.input
    }

    /// The slot being edited.
    pub fn current_input_idx(&self) -> (r: Option<usize>)
        ensures
            r == self.slot(),
    {
        self.current_input_idx
    }

    /// The cursor position within the slot being edited.
    pub fn character_index(&self) -> (r: usize)
        ensures
            r == self.caret(),
    {
        self.character_index
    }

    /// `after` is `before` with slot `k` set to `text` and every other slot kept.
pub open spec fn edited(before: Seq<Option<String>>, after: Seq<Option<String>>, k: int, text: Seq<char>) -> bool {
    &&& after.len() == before.len()
    &&& after[k] is Some && after[k]->0@ == text
    &&& forall|j: int| 0 <= j < before.len() && j != k ==> after[j] == before[j]
}

/// How the surface takes input.
    pub fn input_type(&self) -> (r: InputType)
        ensures
            r == self.kind_of_input(),
    {
        self.input_type
    }

    /// Takes `q` for answering: its responses become the edited values, the first
    /// slot is current and the cursor at its start. Fails with
    /// `ProtocolViolation`, changing nothing, while another question is held.
    pub fn receive(&mut self, q: QuestionEnum) -> (r: Result<(), ExamError>)
        requires
            old(self).wf(),
        ensures
            final(self).wf(),
            r is Ok <==> old(self).held() is None,
            r is Ok ==> final(self).held() == Some(q) && final(self).inputs() == q.slots()
                && final(self).caret() == 0
                && final(self).slot() == (if q.slots().len() > 0 { Some(0usize) } else { None })
                && final(self).kind_of_input() == if q is Judge { InputType::Judge } else { InputType::Fill },
            r is Err ==> r == Err::<(), ExamError>(ExamError::ProtocolViolation) && final(self).held() == old(self).held()
                && final(self).inputs() == old(self).inputs(),
    {
        if self.question.is_some() {
            return Err(ExamError::ProtocolViolation);
        }
        self.input_type = match &q {
            QuestionEnum::Judge(_) => InputType::Judge,
            _ => InputType::Fill,
        };
        self.input = q.user_input();
        self.current_input_idx = if q.input_size() > 0 { Some(0usize) } else { None };
        self.character_index = 0;
        self.question = Some(q);
        Ok(())
    }

    /// While answering is the mode and no question is held, takes a waiting
    /// question from the channel. Returns whether it took one.
    pub fn poll_request(&mut self, mode: &ModeHolder) -> (r: bool)
        requires
            old(self).wf(),
        ensures
            final(self).wf(),
            r ==> old(self).held() is None && final(self).held() is Some && mode.view() == Mode::Input
                && final(self).inputs() == final(self).held()->0.slots() && final(self).caret() == 0,
            mode.view() != Mode::Input || old(self).held() is Some ==> !r,
            !r ==> final(self).held() == old(self).held() && final(self).inputs() == old(self).inputs(),
    {
        if mode.get_mode() != Mode::Input || self.question.is_some() {
            return false;
        }
        match poll(&mut self.question_rx) {
            Some(q) => self.receive(q).is_ok(),
            None => false,
        }
    }

    /// The text of the slot being edited.
    pub fn current_input(&self) -> (r: String)
        requires
            self.wf(),
        ensures
            r@ == self.text(),
    {
        match self.current_input_idx {
            Some(i) => match &self.input[i] {
                Some(s) => s.clone(),
                None => String::new(),
            },
            None => String::new(),
        }
    }

    /// Sets the text of the slot being edited, if there is one.
    fn set_current_input(&mut self, text: String)
        requires
            old(self).wf(),
            text@.len() >= old(self).caret(),
        ensures
            final(self).wf(),
            final(self).held() == old(self).held(),
            final(self).slot() == old(self).slot(),
            final(self).caret() == old(self).caret(),
            final(self).kind_of_input() == old(self).kind_of_input(),
            old(self).slot() is Some ==> final(self).inputs() == old(self).inputs().update(
                old(self).slot()->0 as int, Some(text)),
            old(self).slot() is None ==> final(self).inputs() == old(self).inputs(),
    {
        match self.current_input_idx {
            Some(i) => {
                self.input.set(i, Some(text));
            },
            None => {},
        }
    }

    /// `new_pos` held within the current text.
    pub fn clamp_cursor(&self, new_pos: usize) -> (r: usize)
        requires
            self.wf(),
        ensures
            r == if new_pos <= self.text().len() { new_pos as int } else { self.text().len() as int },
    {
        let n = self.current_input().as_str().unicode_len();
        if new_pos <= n {
            new_pos
        } else {
            n
        }
    }

    /// Moves the cursor one character left, staying at the start.
    pub fn move_cursor_left(&mut self)
        requires
            old(self).wf(),
        ensures
            final(self).wf(),
            final(self).caret() == if old(self).caret() > 0 { (old(self).caret() - 1) as usize } else { 0 },
            final(self).held() == old(self).held(),
            final(self).inputs() == old(self).inputs(),
            final(self).slot() == old(self).slot(),
    {
        let moved = self.character_index.saturating_sub(1);
        self.character_index = self.clamp_cursor(moved);
    }

    /// Moves the cursor one character right, staying at the end.
    pub fn move_cursor_right(&mut self)
        requires
            old(self).wf(),
        ensures
            final(self).wf(),
            final(self).caret() as int == if old(self).caret() < old(self).text().len() {
                old(self).caret() + 1
            } else {
                old(self).caret() as int
            },
            final(self).held() == old(self).held(),
            final(self).inputs() == old(self).inputs(),
            final(self).slot() == old(self).slot(),
    {
        let n = self.current_input().as_str().unicode_len();
        if self.character_index < n {
            self.character_index = self.character_index + 1;
        }
    }

    /// Inserts `c` at the cursor of the current slot and moves past it.
    pub fn enter_char(&mut self, c: char)
        requires
            old(self).wf(),
        ensures
            final(self).wf(),
            final(self).held() == old(self).held(),
            final(self).slot() == old(self).slot(),
            old(self).slot() is Some ==> final(self).caret() == old(self).caret() + 1
                && edited(old(self).inputs(), final(self).inputs(), old(self).slot()->0 as int,
                    inserted(old(self).text(), old(self).caret() as int, c)),
            old(self).slot() is None ==> final(self).inputs() == old(self).inputs() && final(self).caret() == old(self).caret(),
    {
        if self.current_input_idx.is_none() {
            return;
        }
        let text = self.current_input();
        let updated = insert_char_at(&text, self.character_index, c);
        let ghost want = updated@;
        self.set_current_input(updated);
        assert(self.text() == want);
        self.move_cursor_right();
    }

    /// Deletes the character before the cursor and moves back over it; at the
    /// start it does nothing.
    pub fn delete_char(&mut self)
        requires
            old(self).wf(),
        ensures
            final(self).wf(),
            final(self).held() == old(self).held(),
            final(self).slot() == old(self).slot(),
            old(self).caret() > 0 ==> final(self).caret() == old(self).caret() - 1
                && edited(old(self).inputs(), final(self).inputs(), old(self).slot()->0 as int,
                    removed(old(self).text(), old(self).caret() - 1)),
            old(self).caret() == 0 ==> final(self).inputs() == old(self).inputs() && final(self).caret() == 0,
    {
        if self.character_index == 0 {
            return;
        }
        let text = self.current_input();
        let updated = remove_char_at(&text, self.character_index - 1);
        self.character_index = self.character_index - 1;
        self.set_current_input(updated);
    }

    /// Puts the cursor at the start.
    fn reset_cursor(&mut self)
        requires
            old(self).wf(),
        ensures
            final(self).wf(),
            final(self).caret() == 0,
            final(self).held() == old(self).held(),
            final(self).inputs() == old(self).inputs(),
            final(self).slot() == old(self).slot(),
    {
        self.character_index = 0;
    }

    /// Moves to the next slot, from the last back to the first, with the cursor
    /// at the start; with one slot or none it does nothing.
    pub fn move_cursor_next(&mut self)
        requires
            old(self).wf(),
        ensures
            final(self).wf(),
            final(self).held() == old(self).held(),
            final(self).inputs() == old(self).inputs(),
            old(self).inputs().len() > 1 && old(self).slot() is Some ==> final(self).caret() == 0
                && final(self).slot() == Some(
                    if old(self).slot()->0 + 1 < old(self).inputs().len() { (old(self).slot()->0 + 1) as usize } else { 0usize }),
            !(old(self).inputs().len() > 1 && old(self).slot() is Some) ==> final(self).slot() == old(self).slot()
                && final(self).caret() == old(self).caret(),
    {
        if self.input.len() <= 1 {
            return;
        }
        match self.current_input_idx {
            Some(idx) => {
                self.current_input_idx = if idx + 1 < self.input.len() { Some(idx + 1) } else { Some(0usize) };
                self.character_index = 0;
            },
            None => {},
        }
    }

    /// Drops the held question and clears the edited values.
    fn reset(&mut self)
        ensures
            final(self).wf(),
            final(self).held() is None,
            final(self).inputs().len() == 0,
            final(self).slot() is None,
            final(self).caret() == 0,
            final(self).kind_of_input() == old(self).kind_of_input(),
    {
        self.input = Vec::new();
        self.question = None;
        self.current_input_idx = None;
        self.character_index = 0;
    }

    /// Takes the held question with the edited responses applied, and resets.
    pub fn take_answered(&mut self) -> (r: Option<QuestionEnum>)
        requires
            old(self).wf(),
        ensures
            final(self).wf(),
            final(self).held() is None,
            match old(self).held() {
                Some(q) => r is Some && refilled_question(q, r->0, old(self).inputs()),
                None => r is None,
            },
    {
        let taken = self.question.take();
        match taken {
            Some(mut q) => {
                let mut inputs: Vec<Option<String>> = Vec::new();
                std::mem::swap(&mut self.input, &mut inputs);
                q.set_user_input(inputs);
                self.reset();
                Some(q)
            },
            None => {
                self.reset();
                None
            },
        }
    }

    /// Takes the held question exactly as it was received, and resets.
    pub fn take_unchanged(&mut self) -> (r: Option<QuestionEnum>)
        requires
            old(self).wf(),
        ensures
            final(self).wf(),
            final(self).held() is None,
            r == old(self).held(),
    {
        let taken = self.question.take();
        self.reset();
        taken
    }

    /// Hands the held question back with the edited responses.
    pub fn submit_message(&mut self) -> (r: Result<(), ExamError>)
        requires
            old(self).wf(),
        ensures
            final(self).wf(),
            final(self).held() is None,
            r is Err ==> r == Err::<(), ExamError>(ExamError::Disconnected) && old(self).held() is Some,
    {
        match self.take_answered() {
            Some(q) => if post(&self.answer_tx, q) {
                Ok(())
            } else {
                Err(ExamError::Disconnected)
            },
            None => Ok(()),
        }
    }

    /// Hands the held question back unchanged: the answer is cancelled.
    pub fn close(&mut self) -> (r: Result<(), ExamError>)
        requires
            old(self).wf(),
        ensures
            final(self).wf(),
            final(self).held() is None,
            r is Err ==> r == Err::<(), ExamError>(ExamError::Disconnected) && old(self).held() is Some,
    {
        match self.take_unchanged() {
            Some(q) => if post(&self.answer_tx, q) {
                Ok(())
            } else {
                Err(ExamError::Disconnected)
            },
            None => Ok(()),
        }
    }

    /// Keys while answering. Free text: Tab changes slot, Enter submits, a
    /// character is typed, Backspace deletes, Left and Right move the cursor, Esc
    /// cancels. Yes or no: `y` or `Y` answers "Yes", `n` or `N` answers "No", Esc
    /// cancels. In other modes, or with no question held, keys do nothing.
    pub fn handle_key_event(&mut self, key: Key, mode: &ModeHolder) -> (r: Result<Option<Action>, ExamError>)
        requires
            old(self).wf(),
        ensures
            final(self).wf(),
            r is Ok ==> r->Ok_0 is None,
            mode.view() != Mode::Input || old(self).held() is None ==> r is Ok
                && final(self).held() == old(self).held() && final(self).inputs() == old(self).inputs(),
            mode.view() == Mode::Input && old(self).held() is Some && key == Key::Esc ==> final(self).held() is None,
            mode.view() == Mode::Input && old(self).held() is Some && key == Key::Enter
                && old(self).kind_of_input() == InputType::Fill ==> final(self).held() is None,
            mode.view() == Mode::Input && old(self).held() is Some && old(self).kind_of_input() == InputType::Fill
                && key is Char && old(self).slot() is Some ==> r is Ok && final(self).held() == old(self).held()
                && final(self).caret() == old(self).caret() + 1
                && edited(old(self).inputs(), final(self).inputs(), old(self).slot()->0 as int,
                    inserted(old(self).text(), old(self).caret() as int, key->Char_0)),
            mode.view() == Mode::Input && old(self).held() is Some && old(self).kind_of_input() == InputType::Fill
                && key == Key::Backspace && old(self).caret() > 0 ==> r is Ok && final(self).held() == old(self).held()
                && final(self).caret() == old(self).caret() - 1
                && edited(old(self).inputs(), final(self).inputs(), old(self).slot()->0 as int,
                    removed(old(self).text(), old(self).caret() - 1)),
            mode.view() == Mode::Input && old(self).held() is Some && old(self).kind_of_input() == InputType::Judge
                && (key == Key::Char('y') || key == Key::Char('Y') || key == Key::Char('n') || key == Key::Char('N'))
                ==> final(self).held() is None,
    {
        if mode.get_mode() != Mode::Input || self.question.is_none() {
            return Ok(None);
        }
        let outcome = match self.input_type {
            InputType::Fill => match key {
                Key::Tab => {
                    self.move_cursor_next();
                    Ok(())
                },
                Key::Enter => self.submit_message(),
                Key::Char(c) => {
                    self.enter_char(c);
                    Ok(())
                },
                Key::Backspace => {
                    self.delete_char();
                    Ok(())
                },
                Key::Left => {
                    self.move_cursor_left();
                    Ok(())
                },
                Key::Right => {
                    self.move_cursor_right();
                    Ok(())
                },
                Key::Esc => self.close(),
                _ => Ok(()),
            },
            InputType::Judge => match key {
                Key::Esc => self.close(),
                Key::Char(c) => {
                    if c == 'y' || c == 'Y' {
                        self.answer_judge("Yes".to_string())
                    } else if c == 'n' || c == 'N' {
                        self.answer_judge("No".to_string())
                    } else {
                        Ok(())
                    }
                },
                _ => Ok(()),
            },
        };
        match outcome {
            Ok(()) => Ok(None),
            Err(e) => Err(e),
        }
    }

    /// Answers a yes-or-no question with `choice` and hands it back.
    fn answer_judge(&mut self, choice: String) -> (r: Result<(), ExamError>)
        requires
            old(self).wf(),
        ensures
            final(self).wf(),
            final(self).held() is None,
    {
        let slots = match &self.question {
            Some(q) => q.input_size(),
            None => 0,
        };
        if slots == 1 {
            self.input = vec![Some(choice)];
            self.current_input_idx = Some(0usize);
            self.character_index = 0;
        }
        self.submit_message()
    }
}

} // verus!
