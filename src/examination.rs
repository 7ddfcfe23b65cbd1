//! The examination session: bank, selected tab, cursor, answer handshake and scoring.
use vstd::prelude::*;
use tokio::sync::mpsc::{UnboundedReceiver, UnboundedSender};
use crate::action::{Action, ConfirmEvent, Key};
use crate::bank::{bank_lists, bank_wf, load_bank, questions_of, replace_question, drawn, Bank, Sampler};
use crate::category::{QuestionType, CATEGORY_COUNT};
use crate::error::ExamError;
use crate::handshake::{poll, post};
use crate::mode::{Mode, ModeHolder};
use crate::question::{capped, QuestionEnum, blanks_points};
use crate::text::{decimal, decimal_of, joined};

verus! {

/// The examination's title, allotted time and requested question count per category.
#[derive(Clone, Debug)]
pub struct ExaminationConfig {
    name: String,
    duration: u64,
    single_select: usize,
    multi_select: usize,
    judge: usize,
    fill_in: usize,
}

impl ExaminationConfig {
    pub closed spec fn quotas(&self) -> Seq<usize> {
        seq![self.single_select, self.multi_select, self.judge, self.fill_in]
    }

    pub closed spec fn name_text(&self) -> Seq<char> {
        self.name@
    }

    pub closed spec fn duration_secs(&self) -> u64 {
        self.duration
    }

    /// A configuration from its parts.
    pub fn new(name: String, duration: u64, single_select: usize, multi_select: usize, judge: usize, fill_in: usize) -> (r: ExaminationConfig)
        ensures
            r.name_text() == name@,
            r.duration_secs() == duration,
            r.quotas() == seq![single_select, multi_select, judge, fill_in],
    {
        ExaminationConfig { name, duration, single_select, multi_select, judge, fill_in }
    }

    /// The allotted time in seconds.
    pub fn duration(&self) -> (r: u64)
        ensures
            r == self.duration_secs(),
    {
        self.duration
    }

    /// The examination's title.
    pub fn name(&self) -> (r: &String)
        ensures
            r@ == self.name_text(),
    {
        &self.name
    }

    /// The requested question count of category `c`.
    pub fn quota(&self, c: usize) -> (r: usize)
        requires
            c < 4,
        ensures
            r == self.quotas()[c as int],
    {
        if c == 0 {
            self.single_select
        } else if c == 1 {
            self.multi_select
        } else if c == 2 {
            self.judge
        } else {
            self.fill_in
        }
    }
}

/// The session's lifecycle.
#[derive(Clone, Copy, Debug, PartialEq, Eq, Structural)]
pub enum State {
    /// Answering is open.
    Ing,
    /// Scored; answers are shown read-only.
    End,
}

/// The start of the message announcing the final score.
pub const SCORE_PREFIX: &'static str = "您的最终得分是";

/// The message asking to confirm a submission with questions left.
pub const UNFINISHED_PROMPT: &'static str = "还有题目未做完，是否确认交卷？";

/// Points of the first `n` questions of a list.
pub open spec fn list_points(qs: Seq<QuestionEnum>, n: int) -> int
    decreases n,
{
    if n <= 0 {
        0
    } else {
        list_points(qs, n - 1) + qs[n - 1].points()
    }
}

/// Points of the first `c` lists.
pub open spec fn lists_points(ls: Seq<Seq<QuestionEnum>>, c: int) -> int
    decreases c,
{
    if c <= 0 {
        0
    } else {
        lists_points(ls, c - 1) + list_points(ls[c - 1], ls[c - 1].len() as int)
    }
}

/// Points of every question of every list.
pub open spec fn total_points(ls: Seq<Seq<QuestionEnum>>) -> int {
    lists_points(ls, ls.len() as int)
}

/// Every question of every list is answered.
pub open spec fn every_answered(ls: Seq<Seq<QuestionEnum>>) -> bool {
    forall|c: int, i: int| 0 <= c < ls.len() && 0 <= i < ls[c].len() ==> (#[trigger] ls[c][i]).is_answered()
}

/// The cursor on a fresh list: its first question, if it has one.
pub open spec fn first_of(len: nat) -> Option<usize> {
    if len > 0 {
        Some(0usize)
    } else {
        None
    }
}

proof fn lemma_blanks_nonneg(items: Seq<crate::question::FillInItem>, n: int)
    ensures
        blanks_points(items, n) >= 0,
    decreases n,
{
    if n > 0 {
        lemma_blanks_nonneg(items, n - 1);
    }
}

/// A question never earns negative points.
proof fn lemma_points_nonneg(q: QuestionEnum)
    ensures
        q.points() >= 0,
{
    if let QuestionEnum::FillIn(f) = q {
        lemma_blanks_nonneg(f.items@, f.items@.len() as int);
    }
}

/// The examination session.
pub struct Examination {
    examination_config: ExaminationConfig,
    questions: Bank,
    question_tx: UnboundedSender<QuestionEnum>,
    answer_rx: UnboundedReceiver<QuestionEnum>,
    selected: Option<usize>,
    awaiting: Option<(usize, usize)>,
    score: Option<u64>,
    state: State,
    selected_tab: QuestionType,
}

impl Examination {
    /// The question lists, by category index.
    pub closed spec fn lists(&self) -> Seq<Seq<QuestionEnum>> {
        bank_lists(self.questions)
    }

    /// The selected tab.
    pub closed spec fn tab(&self) -> QuestionType {
        self.selected_tab
    }

    /// The cursor within the selected tab's list.
    pub closed spec fn cursor(&self) -> Option<usize> {
        self.selected
    }

    /// The position (category, index) of the question out for answering.
    pub closed spec fn pending(&self) -> Option<(usize, usize)> {
        self.awaiting
    }

    /// The final score, once computed.
    pub closed spec fn final_score(&self) -> Option<u64> {
        self.score
    }

    /// The lifecycle state.
    pub closed spec fn phase(&self) -> State {
        self.state
    }

    pub closed spec fn config(&self) -> ExaminationConfig {
        self.examination_config
    }

    /// The questions of the selected tab.
    pub open spec fn current(&self) -> Seq<QuestionEnum> {
        self.lists()[self.tab().ord() as int]
    }

    /// The session is well formed: one list per category holding questions of
    /// that kind, a cursor inside the current list (none when it is empty), and a
    /// pending position inside its list.
    pub closed spec fn wf(&self) -> bool {
        &&& bank_wf(self.questions)
        &&& forall|c: int, i: int| 0 <= c < CATEGORY_COUNT && 0 <= i < self.lists()[c].len()
            ==> (#[trigger] self.lists()[c][i]).kind() == c
        &&& match self.selected {
            Some(i) => i < self.current().len(),
            None => self.current().len() == 0,
        }
        &&& match self.awaiting {
            Some((c, i)) => c < CATEGORY_COUNT && i < self.lists()[c as int].len(),
            None => true,
        }
    }

    /// A well-formed session has one list per category.
    pub proof fn lemma_wf(&self)
        requires
            self.wf(),
        ensures
            self.lists().len() == CATEGORY_COUNT,
            forall|c: int, i: int| 0 <= c < CATEGORY_COUNT && 0 <= i < self.lists()[c].len()
                ==> (#[trigger] self.lists()[c][i]).kind() == c,
            match self.cursor() {
                Some(i) => i < self.current().len(),
                None => self.current().len() == 0,
            },
            match self.pending() {
                Some((c, i)) => c < CATEGORY_COUNT && i < self.lists()[c as int].len(),
                None => true,
            },
    {
    }

    /// A session over questions drawn from `pool` (see `load_bank`) with the
    /// sampler seeded by `seed`: first tab selected, cursor on its first
    /// question, nothing pending, no score, answering open.
    pub fn new(
        question_tx: UnboundedSender<QuestionEnum>,
        answer_rx: UnboundedReceiver<QuestionEnum>,
        pool: Vec<QuestionEnum>,
        ec: ExaminationConfig,
        seed: u64,
    ) -> (r: Examination)
        ensures
            r.wf(),
            forall|c: int| 0 <= c < CATEGORY_COUNT ==> #[trigger] r.lists()[c] == drawn(pool@, ec.quotas(), seed, c as nat),
            r.tab() == QuestionType::SingleSelect,
            r.cursor() == first_of(r.current().len()),
            r.pending() is None,
            r.final_score() is None,
            r.phase() == State::Ing,
            r.config() == ec,
    {
        let mut sampler = Sampler::new(seed);
        let questions = load_bank(pool, &ec, &mut sampler);
        let first = questions_of(&questions, 0).len();
        let selected = if first > 0 { Some(0usize) } else { None };
        Examination {
            examination_config: ec,
            questions,
            question_tx,
            answer_rx,
            selected,
            awaiting: None,
            score: None,
            state: State::Ing,
            selected_tab: QuestionType::SingleSelect,
        }
    }

    /// The questions of the selected tab.
    pub fn current_questions(&self) -> (r: &Vec<QuestionEnum>)
        requires
            self.wf(),
        ensures
            r@ == self.current(),
    {
        questions_of(&self.questions, self.selected_tab.index())
    }

    /// The questions of category `c`.
    pub fn questions_in(&self, c: QuestionType) -> (r: &Vec<QuestionEnum>)
        requires
            self.wf(),
        ensures
            r@ == self.lists()[c.ord() as int],
    {
        questions_of(&self.questions, c.index())
    }

    /// The selected tab.
    pub fn selected_tab(&self) -> (r: QuestionType)
        ensures
            r == self.tab(),
    {
        self.selected_tab
    }

    /// The cursor within the selected tab.
    pub fn selected(&self) -> (r: Option<usize>)
        ensures
            r == self.cursor(),
    {
        self.selected
    }

    /// The final score, once computed.
    pub fn score(&self) -> (r: Option<u64>)
        ensures
            r == self.final_score(),
    {
        self.score
    }

    /// The lifecycle state.
    pub fn state(&self) -> (r: State)
        ensures
            r == self.phase(),
    {
        self.state
    }

    /// Whether a question is out for answering.
    pub fn is_awaiting(&self) -> (r: bool)
        ensures
            r == self.pending() is Some,
    {
        self.awaiting.is_some()
    }

    /// The examination's configuration.
    pub fn examination_config(&self) -> (r: &ExaminationConfig)
        ensures
            *r == self.config(),
    {
        &self.examination_config
    }

    /// Selects tab `t` with the cursor on its first question.
    fn select_tab(&mut self, t: QuestionType)
        requires
            old(self).wf(),
        ensures
            final(self).wf(),
            final(self).tab() == t,
            final(self).cursor() == first_of(final(self).current().len()),
            final(self).lists() == old(self).lists(),
            final(self).pending() == old(self).pending(),
            final(self).final_score() == old(self).final_score(),
            final(self).phase() == old(self).phase(),
            final(self).config() == old(self).config(),
    {
        let len = questions_of(&self.questions, t.index()).len();
        self.selected_tab = t;
        self.selected = if len > 0 { Some(0usize) } else { None };
    }

    /// Moves to the next tab, staying at the last; the cursor goes to the first question.
    pub fn next_tab(&mut self)
        requires
            old(self).wf(),
        ensures
            final(self).wf(),
            final(self).tab() == old(self).tab().after(),
            final(self).cursor() == first_of(final(self).current().len()),
            final(self).lists() == old(self).lists(),
            final(self).pending() == old(self).pending(),
            final(self).final_score() == old(self).final_score(),
            final(self).phase() == old(self).phase(),
            final(self).config() == old(self).config(),
    {
        let t = self.selected_tab.next();
        self.select_tab(t);
    }

    /// Moves to the previous tab, staying at the first; the cursor goes to the first question.
    pub fn previous_tab(&mut self)
        requires
            old(self).wf(),
        ensures
            final(self).wf(),
            final(self).tab() == old(self).tab().before(),
            final(self).cursor() == first_of(final(self).current().len()),
            final(self).lists() == old(self).lists(),
            final(self).pending() == old(self).pending(),
            final(self).final_score() == old(self).final_score(),
            final(self).phase() == old(self).phase(),
            final(self).config() == old(self).config(),
    {
        let t = self.selected_tab.previous();
        self.select_tab(t);
    }

    /// Moves the cursor down one question, staying at the last.
    pub fn select_next(&mut self)
        requires
            old(self).wf(),
        ensures
            final(self).wf(),
            final(self).cursor() == match old(self).cursor() {
                Some(i) => Some(if i + 1 < old(self).current().len() { (i + 1) as usize } else { i }),
                None => None,
            },
            final(self).tab() == old(self).tab(),
            final(self).lists() == old(self).lists(),
            final(self).pending() == old(self).pending(),
            final(self).final_score() == old(self).final_score(),
            final(self).phase() == old(self).phase(),
            final(self).config() == old(self).config(),
    {
        let len = questions_of(&self.questions, self.selected_tab.index()).len();
        match self.selected {
            Some(i) => {
                if i + 1 < len {
                    self.selected = Some(i + 1);
                }
            },
            None => {},
        }
    }

    /// Moves the cursor up one question, staying at the first.
    pub fn select_previous(&mut self)
        requires
            old(self).wf(),
        ensures
            final(self).wf(),
            final(self).cursor() == match old(self).cursor() {
                Some(i) => Some(if i > 0 { (i - 1) as usize } else { i }),
                None => None,
            },
            final(self).tab() == old(self).tab(),
            final(self).lists() == old(self).lists(),
            final(self).pending() == old(self).pending(),
            final(self).final_score() == old(self).final_score(),
            final(self).phase() == old(self).phase(),
            final(self).config() == old(self).config(),
    {
        match self.selected {
            Some(i) => {
                if i > 0 {
                    self.selected = Some(i - 1);
                }
            },
            None => {},
        }
    }

    /// Sends a copy of the question under the cursor to the answer surface and
    /// enters the input mode. Does nothing (`Ok(false)`) unless answering is open,
    /// the user is browsing and the cursor is on a question; fails with
    /// `ProtocolViolation` while another question is out, and with `Disconnected`
    /// when the surface is gone.
    pub fn request_answer(&mut self, mode: &mut ModeHolder) -> (r: Result<bool, ExamError>)
        requires
            old(self).wf(),
        ensures
            final(self).wf(),
            final(self).lists() == old(self).lists(),
            final(self).tab() == old(self).tab(),
            final(self).cursor() == old(self).cursor(),
            final(self).final_score() == old(self).final_score(),
            final(self).phase() == old(self).phase(),
            final(self).config() == old(self).config(),
            !(old(self).phase() == State::Ing && old(mode).view() == Mode::Examination && old(self).cursor() is Some)
                ==> r == Ok::<bool, ExamError>(false) && final(self).pending() == old(self).pending()
                && final(mode).view() == old(mode).view(),
            old(self).phase() == State::Ing && old(mode).view() == Mode::Examination && old(self).cursor() is Some
                ==> match r {
                    Ok(sent) => sent && old(self).pending() is None
                        && final(self).pending() == Some((old(self).tab().ord() as usize, old(self).cursor()->0))
                        && final(mode).view() == Mode::Input,
                    Err(e) => final(self).pending() == old(self).pending() && final(mode).view() == old(mode).view()
                        && (e == ExamError::ProtocolViolation <==> old(self).pending() is Some),
                },
    {
        if self.state != State::Ing || mode.get_mode() != Mode::Examination {
            return Ok(false);
        }
        let i = match self.selected {
            Some(i) => i,
            None => {
                return Ok(false);
            },
        };
        if self.awaiting.is_some() {
            return Err(ExamError::ProtocolViolation);
        }
        let c = self.selected_tab.index();
        let q = questions_of(&self.questions, c)[i].duplicate();
        if !post(&self.question_tx, q) {
            return Err(ExamError::Disconnected);
        }
        self.awaiting = Some((c, i));
        mode.try_set(Mode::Examination, Mode::Input);
        Ok(true)
    }

    /// Merges an answered question back at the position captured when it was
    /// requested, and returns from the input mode. Fails with `ProtocolViolation`,
    /// changing nothing, when no question is out or `q` is not the question out.
    pub fn receive_answer(&mut self, q: QuestionEnum, mode: &mut ModeHolder) -> (r: Result<(), ExamError>)
        requires
            old(self).wf(),
        ensures
            final(self).wf(),
            final(self).tab() == old(self).tab(),
            final(self).cursor() == old(self).cursor(),
            final(self).final_score() == old(self).final_score(),
            final(self).phase() == old(self).phase(),
            final(self).config() == old(self).config(),
            r is Ok <==> match old(self).pending() {
                Some((c, i)) => old(self).lists()[c as int][i as int].kind() == q.kind()
                    && old(self).lists()[c as int][i as int].prompt() == q.prompt(),
                None => false,
            },
            r is Ok ==> final(self).pending() is None
                && match old(self).pending() {
                    Some((c, i)) => final(self).lists() == old(self).lists().update(
                        c as int,
                        old(self).lists()[c as int].update(i as int, q),
                    ),
                    None => false,
                }
                && final(mode).view() == if old(mode).view() == Mode::Input { Mode::Examination } else { old(mode).view() },
            r is Err ==> r == Err::<(), ExamError>(ExamError::ProtocolViolation)
                && final(self).pending() == old(self).pending()
                && final(self).lists() == old(self).lists() && final(mode).view() == old(mode).view(),
    {
        let (c, i) = match self.awaiting {
            Some(p) => p,
            None => {
                return Err(ExamError::ProtocolViolation);
            },
        };
        if !questions_of(&self.questions, c)[i].same_question(&q) {
            return Err(ExamError::ProtocolViolation);
        }
        proof {
            self.lemma_wf();
        }
        let ghost before = self.lists();
        replace_question(&mut self.questions, c, i, q);
        self.awaiting = None;
        mode.try_set(Mode::Input, Mode::Examination);
        proof {
            assert forall|k: int, j: int| 0 <= k < CATEGORY_COUNT && 0 <= j < self.lists()[k].len()
                implies (#[trigger] self.lists()[k][j]).kind() == k by {
                if k != c || j != i {
                    assert(self.lists()[k][j] == before[k][j]);
                }
            }
        }
        Ok(())
    }

    /// Takes an answered question from the channel, if one is waiting, and merges it
    /// as `receive_answer` does. Returns whether one was waiting.
    pub fn poll_answer(&mut self, mode: &mut ModeHolder) -> (r: Result<bool, ExamError>)
        requires
            old(self).wf(),
        ensures
            final(self).wf(),
            final(self).tab() == old(self).tab(),
            final(self).cursor() == old(self).cursor(),
            final(self).final_score() == old(self).final_score(),
            final(self).phase() == old(self).phase(),
            final(self).config() == old(self).config(),
            r == Ok::<bool, ExamError>(false) ==> final(self).lists() == old(self).lists()
                && final(self).pending() == old(self).pending() && final(mode).view() == old(mode).view(),
            r == Ok::<bool, ExamError>(true) ==> old(self).pending() is Some && final(self).pending() is None,
            r is Err ==> r == Err::<bool, ExamError>(ExamError::ProtocolViolation)
                && final(self).lists() == old(self).lists() && final(self).pending() == old(self).pending()
                && final(mode).view() == old(mode).view(),
            old(self).pending() is None ==> final(self).lists() == old(self).lists() && final(self).pending() is None
                && final(mode).view() == old(mode).view(),
    {
        match poll(&mut self.answer_rx) {
            Some(q) => match self.receive_answer(q, mode) {
                Ok(()) => Ok(true),
                Err(e) => Err(e),
            },
            None => Ok(false),
        }
    }

    /// Keys while browsing: Down and Up move the cursor, Left and Right the tab,
    /// Enter asks for an answer to the question under the cursor. In other modes
    /// keys do nothing.
    pub fn handle_key_event(&mut self, key: Key, mode: &mut ModeHolder) -> (r: Result<Option<Action>, ExamError>)
        requires
            old(self).wf(),
        ensures
            final(self).wf(),
            final(self).lists() == old(self).lists(),
            final(self).final_score() == old(self).final_score(),
            final(self).phase() == old(self).phase(),
            r is Ok ==> r->Ok_0 is None,
            old(mode).view() != Mode::Examination ==> r is Ok && final(self).tab() == old(self).tab()
                && final(self).cursor() == old(self).cursor() && final(self).pending() == old(self).pending()
                && final(mode).view() == old(mode).view(),
            old(mode).view() == Mode::Examination && (key == Key::Down || key == Key::Up) ==> r is Ok
                && final(self).tab() == old(self).tab() && final(self).pending() == old(self).pending()
                && final(mode).view() == old(mode).view()
                && final(self).cursor() == match old(self).cursor() {
                    Some(i) => Some(
                        if key == Key::Down {
                            if i + 1 < old(self).current().len() { (i + 1) as usize } else { i }
                        } else {
                            if i > 0 { (i - 1) as usize } else { i }
                        },
                    ),
                    None => None,
                },
            old(mode).view() == Mode::Examination && key == Key::Right ==> final(self).tab() == old(self).tab().after()
                && final(self).cursor() == first_of(final(self).current().len()),
            old(mode).view() == Mode::Examination && key == Key::Left ==> final(self).tab() == old(self).tab().before()
                && final(self).cursor() == first_of(final(self).current().len()),
            old(mode).view() == Mode::Examination && key == Key::Enter && old(self).cursor() is None
                ==> r is Ok && final(mode).view() == Mode::Examination && final(self).pending() == old(self).pending(),
            old(mode).view() == Mode::Examination && key == Key::Enter && old(self).phase() == State::Ing
                && old(self).cursor() is Some && old(self).pending() is None && r is Ok
                ==> final(mode).view() == Mode::Input
                && final(self).pending() == Some((old(self).tab().ord() as usize, old(self).cursor()->0)),
    {
        if mode.get_mode() == Mode::Examination {
            match key {
                Key::Down => self.select_next(),
                Key::Up => self.select_previous(),
                Key::Enter => {
                    if self.state == State::Ing {
                        match self.request_answer(mode) {
                            Ok(_) => {},
                            Err(e) => {
                                return Err(e);
                            },
                        }
                    }
                },
                Key::Right => self.next_tab(),
                Key::Left => self.previous_tab(),
                _ => {},
            }
        }
        Ok(None)
    }

    /// Whether every question of every category is answered.
    pub fn all_answered(&self) -> (r: bool)
        requires
            self.wf(),
        ensures
            r == every_answered(self.lists()),
    {
        proof {
            self.lemma_wf();
        }
        let mut c: usize = 0;
        while c < CATEGORY_COUNT
            invariant
                self.wf(),
                self.lists().len() == CATEGORY_COUNT,
                c <= CATEGORY_COUNT,
                forall|k: int, i: int| 0 <= k < c && 0 <= i < self.lists()[k].len()
                    ==> (#[trigger] self.lists()[k][i]).is_answered(),
            decreases CATEGORY_COUNT - c,
        {
            let qs = questions_of(&self.questions, c);
            let mut i: usize = 0;
            while i < qs.len()
                invariant
                    self.lists().len() == CATEGORY_COUNT,
                    c < CATEGORY_COUNT,
                    qs@ == self.lists()[c as int],
                    i <= qs@.len(),
                    forall|k: int, j: int| 0 <= k < c && 0 <= j < self.lists()[k].len()
                        ==> (#[trigger] self.lists()[k][j]).is_answered(),
                    forall|j: int| 0 <= j < i ==> (#[trigger] self.lists()[c as int][j]).is_answered(),
                decreases qs@.len() - i,
            {
                if !qs[i].answered() {
                    return false;
                }
                i += 1;
            }
            c += 1;
        }
        true
    }

    /// The total score: the points of every question of every category, capped at
    /// the largest `u64`.
    pub fn cal_score(&self) -> (r: u64)
        requires
            self.wf(),
        ensures
            r == capped(total_points(self.lists())),
    {
        proof {
            self.lemma_wf();
        }
        let ghost ls = self.lists();
        let mut total: u64 = 0;
        let mut c: usize = 0;
        while c < CATEGORY_COUNT
            invariant
                self.wf(),
                ls == self.lists(),
                ls.len() == CATEGORY_COUNT,
                c <= CATEGORY_COUNT,
                total as int == capped(lists_points(ls, c as int)),
                lists_points(ls, c as int) >= 0,
            decreases CATEGORY_COUNT - c,
        {
            let qs = questions_of(&self.questions, c);
            let ghost before = lists_points(ls, c as int);
            let mut i: usize = 0;
            while i < qs.len()
                invariant
                    ls.len() == CATEGORY_COUNT,
                    c < CATEGORY_COUNT,
                    qs@ == ls[c as int],
                    i <= qs@.len(),
                    before >= 0,
                    list_points(qs@, i as int) >= 0,
                    total as int == capped(before + list_points(qs@, i as int)),
                decreases qs@.len() - i,
            {
                let p = qs[i].cal_score();
                proof {
                    lemma_points_nonneg(qs@[i as int]);
                }
                total = total.saturating_add(p);
                i += 1;
            }
            c += 1;
        }
        total
    }

    /// Computes and stores the final score, returns to browsing, and asks for the
    /// score to be announced.
    pub fn handle_submit(&mut self, mode: &mut ModeHolder) -> (r: Action)
        requires
            old(self).wf(),
        ensures
            final(self).wf(),
            final(self).final_score() == Some(capped(total_points(old(self).lists())) as u64),
            r is Alert && r->Alert_1 == ConfirmEvent::Score,
            r->Alert_0@ == SCORE_PREFIX@ + decimal_of(capped(total_points(old(self).lists())) as nat),
            final(mode).view() == Mode::Examination,
            final(self).lists() == old(self).lists(),
            final(self).tab() == old(self).tab(),
            final(self).cursor() == old(self).cursor(),
            final(self).pending() == old(self).pending(),
            final(self).phase() == old(self).phase(),
    {
        mode.set_examination();
        let score = self.cal_score();
        self.score = Some(score);
        let msg = joined(SCORE_PREFIX, decimal(score).as_str());
        Action::Alert(msg, ConfirmEvent::Score)
    }

    /// Actions: `Submit` finalizes at once when every question is answered and
    /// otherwise asks for confirmation with a `Submit` alert; confirming that alert
    /// finalizes whatever is answered; confirming the score alert ends the
    /// examination. Submitting does nothing once it has ended.
    pub fn update(&mut self, action: Action, mode: &mut ModeHolder) -> (r: Option<Action>)
        requires
            old(self).wf(),
        ensures
            final(self).wf(),
            final(self).lists() == old(self).lists(),
            final(self).tab() == old(self).tab(),
            final(self).cursor() == old(self).cursor(),
            final(self).pending() == old(self).pending(),
            action is Submit && old(self).phase() == State::Ing && every_answered(old(self).lists())
                ==> final(self).final_score() == Some(capped(total_points(old(self).lists())) as u64)
                && r is Some && r->0 is Alert && r->0->Alert_1 == ConfirmEvent::Score
                && r->0->Alert_0@ == SCORE_PREFIX@ + decimal_of(capped(total_points(old(self).lists())) as nat)
                && final(mode).view() == Mode::Examination && final(self).phase() == State::Ing,
            action is Submit && old(self).phase() == State::Ing && !every_answered(old(self).lists())
                ==> final(self).final_score() == old(self).final_score()
                && r is Some && r->0 is Alert && r->0->Alert_1 == ConfirmEvent::Submit
                && r->0->Alert_0@ == UNFINISHED_PROMPT@
                && final(mode).view() == old(mode).view() && final(self).phase() == State::Ing,
            action == Action::Confirm(ConfirmEvent::Submit) && old(self).phase() == State::Ing
                ==> final(self).final_score() == Some(capped(total_points(old(self).lists())) as u64)
                && r is Some && r->0 is Alert && r->0->Alert_1 == ConfirmEvent::Score
                && r->0->Alert_0@ == SCORE_PREFIX@ + decimal_of(capped(total_points(old(self).lists())) as nat)
                && final(mode).view() == Mode::Examination && final(self).phase() == State::Ing,
            action == Action::Confirm(ConfirmEvent::Score)
                ==> final(self).phase() == State::End && r is None
                && final(mode).view() == Mode::Examination && final(self).final_score() == old(self).final_score(),
            !(action is Submit || action == Action::Confirm(ConfirmEvent::Submit) || action == Action::Confirm(ConfirmEvent::Score))
                || (old(self).phase() == State::End && action != Action::Confirm(ConfirmEvent::Score))
                ==> r is None && final(self).phase() == old(self).phase()
                && final(self).final_score() == old(self).final_score() && final(mode).view() == old(mode).view(),
    {
        match action {
            Action::Submit => {
                if self.state != State::Ing {
                    None
                } else if self.all_answered() {
                    Some(self.handle_submit(mode))
                } else {
                    Some(Action::Alert(UNFINISHED_PROMPT.to_string(), ConfirmEvent::Submit))
                }
            },
            Action::Confirm(ConfirmEvent::Submit) => {
                if self.state != State::Ing {
                    None
                } else {
                    Some(self.handle_submit(mode))
                }
            },
            Action::Confirm(ConfirmEvent::Score) => {
                self.state = State::End;
                mode.set_examination();
                None
            },
            _ => None,
        }
    }
}

proof fn lemma_list_points_replace(qs: Seq<QuestionEnum>, i: int, q: QuestionEnum, n: int)
    requires
        0 <= i < qs.len(),
        n <= qs.len(),
        q.points() == qs[i].points(),
    ensures
        list_points(qs.update(i, q), n) == list_points(qs, n),
    decreases n,
{
    if n > 0 {
        lemma_list_points_replace(qs, i, q, n - 1);
    }
}

proof fn lemma_lists_points_replace(ls: Seq<Seq<QuestionEnum>>, c: int, i: int, q: QuestionEnum, n: int)
    requires
        0 <= c < ls.len(),
        0 <= i < ls[c].len(),
        n <= ls.len(),
        q.points() == ls[c][i].points(),
    ensures
        lists_points(ls.update(c, ls[c].update(i, q)), n) == lists_points(ls, n),
    decreases n,
{
    if n > 0 {
        lemma_lists_points_replace(ls, c, i, q, n - 1);
        if n - 1 == c {
            lemma_list_points_replace(ls[c], i, q, ls[c].len() as int);
        }
    }
}

/// Merging back a question whose content is unchanged (the cancel path of the
/// handshake) leaves the total score and the all-answered check as they were.
pub proof fn lemma_unchanged_round_trip(ls: Seq<Seq<QuestionEnum>>, c: int, i: int, q: QuestionEnum)
    requires
        0 <= c < ls.len(),
        0 <= i < ls[c].len(),
        q.same_as(ls[c][i]),
    ensures
        total_points(ls.update(c, ls[c].update(i, q))) == total_points(ls),
        every_answered(ls.update(c, ls[c].update(i, q))) == every_answered(ls),
        q.points() == ls[c][i].points(),
        q.is_answered() == ls[c][i].is_answered(),
{
    let merged = ls.update(c, ls[c].update(i, q));
    lemma_lists_points_replace(ls, c, i, q, ls.len() as int);
    if every_answered(ls) {
        assert forall|k: int, j: int| 0 <= k < merged.len() && 0 <= j < merged[k].len()
            implies (#[trigger] merged[k][j]).is_answered() by {
            assert(ls[k][j].is_answered());
        }
    }
    if every_answered(merged) {
        assert forall|k: int, j: int| 0 <= k < ls.len() && 0 <= j < ls[k].len()
            implies (#[trigger] ls[k][j]).is_answered() by {
            assert(merged[k][j].is_answered());
        }
    }
}

} // verus!
