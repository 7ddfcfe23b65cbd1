use exam_engine::action::{Action, ConfirmEvent, Key};
use exam_engine::alert::Alert;
use exam_engine::bank::{load_bank, questions_of, sample, Sampler};
use exam_engine::category::QuestionType;
use exam_engine::error::ExamError;
use exam_engine::examination::{Examination, ExaminationConfig, State};
use exam_engine::mode::{Mode, ModeHolder};
use exam_engine::question::{FillIn, FillInItem, Judge, QuestionEnum, SingleSelect};
use exam_engine::session::Session;
use exam_engine::timer::Timer;
use exam_engine::user_input::UserInput;
use tokio::sync::mpsc::unbounded_channel;

fn single(n: usize, answer: &str, input: Option<&str>) -> QuestionEnum {
    QuestionEnum::SingleSelect(SingleSelect {
        question: format!("question {n}（ ）"),
        options: vec!["A. yes".to_string(), "B. no".to_string()],
        answer: answer.to_string(),
        user_input: input.map(|s| s.to_string()),
        score: 10,
    })
}

fn judge(answer: &str, input: Option<&str>) -> QuestionEnum {
    QuestionEnum::Judge(Judge {
        question: "太阳东升西落，对吗？（ ）".to_string(),
        answer: answer.to_string(),
        user_input: input.map(|s| s.to_string()),
        score: 5,
    })
}

fn fill(input: Option<&str>) -> QuestionEnum {
    QuestionEnum::FillIn(FillIn {
        question: "The sky is ( ).".to_string(),
        items: vec![FillInItem { answer: "blue".to_string(), user_input: input.map(|s| s.to_string()), score: 3 }],
    })
}

fn config(s: usize, m: usize, j: usize, f: usize) -> ExaminationConfig {
    ExaminationConfig::new("Quiz".to_string(), 600, s, m, j, f)
}

struct Rig {
    exam: Examination,
    input: UserInput,
    mode: ModeHolder,
    alert: Alert,
}

fn rig(pool: Vec<QuestionEnum>, ec: ExaminationConfig) -> Rig {
    let (question_tx, question_rx) = unbounded_channel();
    let (answer_tx, answer_rx) = unbounded_channel();
    Rig {
        exam: Examination::new(question_tx, answer_rx, pool, ec, 42),
        input: UserInput::new(question_rx, answer_tx),
        mode: ModeHolder::new(),
        alert: Alert::new(),
    }
}

fn prompt(q: &QuestionEnum) -> String {
    q.prompt_text().clone()
}

#[test]
fn sampling_draws_quota_without_duplicates() {
    let pool: Vec<QuestionEnum> = (0..5).map(|n| single(n, "A", None)).collect();
    let prompts: Vec<String> = pool.iter().map(prompt).collect();
    let r = rig(pool, config(2, 0, 0, 0));
    let drawn = r.exam.questions_in(QuestionType::SingleSelect);
    assert_eq!(drawn.len(), 2);
    assert_ne!(prompt(&drawn[0]), prompt(&drawn[1]));
    for q in drawn {
        assert!(prompts.contains(&prompt(q)));
    }
}

#[test]
fn sampling_takes_all_when_quota_exceeds_pool() {
    let pool = vec![single(0, "A", None), judge("Yes", None), single(1, "B", None)];
    let mut sampler = Sampler::new(7);
    let bank = load_bank(pool, &config(9, 3, 1, 0), &mut sampler);
    assert_eq!(questions_of(&bank, 0).len(), 2);
    assert_eq!(questions_of(&bank, 1).len(), 0);
    assert_eq!(questions_of(&bank, 2).len(), 1);
    assert_eq!(questions_of(&bank, 3).len(), 0);
}

#[test]
fn sampling_is_deterministic_for_a_seed() {
    let draw = |seed: u64| {
        let mut sampler = Sampler::new(seed);
        sample((0..10).collect::<Vec<u32>>(), 4, &mut sampler)
    };
    assert_eq!(draw(3), draw(3));
    let picked = draw(3);
    let mut sorted = picked.clone();
    sorted.sort();
    sorted.dedup();
    assert_eq!(sorted.len(), 4);
    assert!(picked.iter().all(|x| *x < 10));
}

#[test]
fn sampler_follows_its_step() {
    let mut sampler = Sampler::new(0);
    let expected = (1442695040888963407u64 >> 33) % 1000;
    assert_eq!(sampler.next_below(1000) as u64, expected);
}

#[test]
fn submit_with_everything_right_finalizes_at_once() {
    let mut r = rig(vec![single(0, "A", Some("a")), judge("Yes", Some("yes")), fill(Some("blue"))], config(1, 0, 1, 1));
    assert!(r.exam.all_answered());
    let out = r.exam.update(Action::Submit, &mut r.mode);
    match out {
        Some(Action::Alert(_, tag)) => assert_eq!(tag, ConfirmEvent::Score),
        _ => panic!("expected the score alert"),
    }
    assert_eq!(r.exam.score(), Some(18));
    assert_eq!(r.mode.get_mode(), Mode::Examination);
}

#[test]
fn submit_with_an_unanswered_question_asks_first() {
    let mut r = rig(vec![single(0, "A", Some("a")), judge("Yes", None)], config(1, 0, 1, 0));
    let out = r.exam.update(Action::Submit, &mut r.mode);
    let (msg, tag) = match out {
        Some(Action::Alert(msg, tag)) => (msg, tag),
        _ => panic!("expected the confirmation alert"),
    };
    assert_eq!(tag, ConfirmEvent::Submit);
    assert_eq!(msg, "还有题目未做完，是否确认交卷？");
    assert_eq!(r.exam.score(), None);
    assert!(r.alert.update(Action::Alert(msg, tag), &mut r.mode));
    assert_eq!(r.mode.get_mode(), Mode::Alert);
    let confirm = r.alert.handle_key_event(Key::Enter, &mut r.mode);
    assert_eq!(r.mode.get_mode(), Mode::Examination);
    let score_alert = r.exam.update(confirm.unwrap(), &mut r.mode);
    assert_eq!(r.exam.score(), Some(10));
    match score_alert {
        Some(Action::Alert(msg, ConfirmEvent::Score)) => assert_eq!(msg, "您的最终得分是10"),
        _ => panic!("expected the score alert"),
    }
    assert_eq!(r.exam.state(), State::Ing);
    r.exam.update(Action::Confirm(ConfirmEvent::Score), &mut r.mode);
    assert_eq!(r.exam.state(), State::End);
}

#[test]
fn answer_request_on_empty_category_is_a_no_op() {
    let mut r = rig(vec![judge("Yes", None)], config(0, 0, 1, 0));
    assert_eq!(r.exam.selected_tab(), QuestionType::SingleSelect);
    assert_eq!(r.exam.selected(), None);
    let out = r.exam.handle_key_event(Key::Enter, &mut r.mode);
    assert!(matches!(out, Ok(None)));
    assert_eq!(r.mode.get_mode(), Mode::Examination);
    assert!(!r.exam.is_awaiting());
}

#[test]
fn navigation_is_clamped() {
    let mut r = rig(vec![single(0, "A", None), single(1, "A", None), judge("No", None)], config(2, 0, 1, 0));
    r.exam.previous_tab();
    assert_eq!(r.exam.selected_tab(), QuestionType::SingleSelect);
    r.exam.select_previous();
    assert_eq!(r.exam.selected(), Some(0));
    r.exam.select_next();
    r.exam.select_next();
    assert_eq!(r.exam.selected(), Some(1));
    for _ in 0..6 {
        r.exam.next_tab();
    }
    assert_eq!(r.exam.selected_tab(), QuestionType::FillIn);
    assert_eq!(r.exam.selected(), None);
    r.exam.previous_tab();
    assert_eq!(r.exam.selected_tab(), QuestionType::Judge);
    assert_eq!(r.exam.selected(), Some(0));
    assert_eq!(QuestionType::FillIn.next(), QuestionType::FillIn);
    assert_eq!(QuestionType::SingleSelect.previous(), QuestionType::SingleSelect);
    assert_eq!(QuestionType::MultiSelect.next(), QuestionType::Judge);
}

#[test]
fn cancelled_answer_round_trip_changes_nothing() {
    let mut r = rig(vec![single(0, "A", Some("b")), judge("Yes", None)], config(1, 0, 1, 0));
    let before = (r.exam.cal_score(), r.exam.all_answered());
    assert!(matches!(r.exam.request_answer(&mut r.mode), Ok(true)));
    assert_eq!(r.mode.get_mode(), Mode::Input);
    assert!(r.input.poll_request(&r.mode));
    assert!(r.input.close().is_ok());
    assert!(matches!(r.exam.poll_answer(&mut r.mode), Ok(true)));
    assert_eq!(r.mode.get_mode(), Mode::Examination);
    assert_eq!((r.exam.cal_score(), r.exam.all_answered()), before);
    assert!(!r.exam.is_awaiting());
}

#[test]
fn typed_answer_is_merged_at_the_requested_position() {
    let mut r = rig(vec![single(0, "B", None), single(1, "B", None)], config(2, 0, 0, 0));
    r.exam.select_next();
    r.exam.handle_key_event(Key::Enter, &mut r.mode).unwrap();
    assert!(r.input.poll_request(&r.mode));
    r.input.handle_key_event(Key::Char('b'), &r.mode).unwrap();
    r.input.handle_key_event(Key::Enter, &r.mode).unwrap();
    assert!(matches!(r.exam.poll_answer(&mut r.mode), Ok(true)));
    let qs = r.exam.current_questions();
    assert!(!qs[0].answered());
    assert!(qs[1].answered());
    assert_eq!(r.exam.cal_score(), 10);
}

#[test]
fn second_request_while_one_is_out_is_a_protocol_violation() {
    let mut r = rig(vec![single(0, "A", None)], config(1, 0, 0, 0));
    assert!(matches!(r.exam.request_answer(&mut r.mode), Ok(true)));
    r.mode.try_set(Mode::Input, Mode::Examination);
    assert_eq!(r.exam.request_answer(&mut r.mode), Err(ExamError::ProtocolViolation));
}

#[test]
fn unexpected_answer_is_a_protocol_violation() {
    let mut r = rig(vec![single(0, "A", None)], config(1, 0, 0, 0));
    assert_eq!(r.exam.receive_answer(single(0, "A", Some("a")), &mut r.mode), Err(ExamError::ProtocolViolation));
    assert!(matches!(r.exam.request_answer(&mut r.mode), Ok(true)));
    assert_eq!(r.exam.receive_answer(judge("Yes", Some("Yes")), &mut r.mode), Err(ExamError::ProtocolViolation));
    assert!(r.exam.receive_answer(single(0, "A", Some("a")), &mut r.mode).is_ok());
    assert_eq!(r.exam.cal_score(), 10);
}

#[test]
fn request_to_a_closed_surface_is_disconnected() {
    let (question_tx, question_rx) = unbounded_channel();
    let (_answer_tx, answer_rx) = unbounded_channel();
    drop(question_rx);
    let mut exam = Examination::new(question_tx, answer_rx, vec![single(0, "A", None)], config(1, 0, 0, 0), 1);
    let mut mode = ModeHolder::new();
    assert_eq!(exam.request_answer(&mut mode), Err(ExamError::Disconnected));
    assert_eq!(mode.get_mode(), Mode::Examination);
}

#[test]
fn answering_is_closed_after_the_end() {
    let mut r = rig(vec![single(0, "A", None)], config(1, 0, 0, 0));
    r.exam.update(Action::Confirm(ConfirmEvent::Submit), &mut r.mode);
    r.exam.update(Action::Confirm(ConfirmEvent::Score), &mut r.mode);
    assert_eq!(r.exam.state(), State::End);
    assert!(matches!(r.exam.request_answer(&mut r.mode), Ok(false)));
    assert!(r.exam.update(Action::Submit, &mut r.mode).is_none());
    r.exam.select_next();
    assert_eq!(r.exam.selected(), Some(0));
}

#[test]
fn mode_transitions_are_checked() {
    let mut m = ModeHolder::new();
    assert!(!m.try_set(Mode::Input, Mode::Examination));
    assert!(!m.try_set(Mode::Examination, Mode::Examination));
    assert!(m.try_set(Mode::Examination, Mode::Alert));
    assert!(!m.try_set(Mode::Alert, Mode::Input));
    assert!(m.try_set(Mode::Alert, Mode::Examination));
    assert!(m.try_set(Mode::Examination, Mode::Input));
    assert_eq!(m.get_mode(), Mode::Input);
}

#[test]
fn alert_is_dismissed_with_esc() {
    let mut mode = ModeHolder::new();
    let mut alert = Alert::new();
    assert!(alert.update(Action::Alert("hello".to_string(), ConfirmEvent::Nothing), &mut mode));
    assert_eq!(alert.msg, "hello");
    assert!(alert.handle_key_event(Key::Esc, &mut mode).is_none());
    assert_eq!(mode.get_mode(), Mode::Examination);
    assert!(!alert.update(Action::Submit, &mut mode));
}

#[test]
fn session_routes_a_typed_fill_in_answer() {
    let (question_tx, question_rx) = unbounded_channel();
    let (answer_tx, answer_rx) = unbounded_channel();
    let exam = Examination::new(question_tx, answer_rx, vec![fill(None)], config(0, 0, 0, 1), 5);
    let input = UserInput::new(question_rx, answer_tx);
    let mut s = Session::new(exam, input, Timer::starting_at(0, 600));
    for _ in 0..3 {
        s.handle_key(Key::Right).unwrap();
    }
    s.handle_key(Key::Enter).unwrap();
    assert_eq!(s.mode(), Mode::Input);
    s.tick(1).unwrap();
    for c in "blxue".chars() {
        s.handle_key(Key::Char(c)).unwrap();
    }
    s.handle_key(Key::Left).unwrap();
    s.handle_key(Key::Left).unwrap();
    s.handle_key(Key::Backspace).unwrap();
    assert_eq!(s.user_input().current_input(), "blue");
    s.handle_key(Key::Enter).unwrap();
    s.tick(2).unwrap();
    assert_eq!(s.mode(), Mode::Examination);
    assert_eq!(s.examination().cal_score(), 3);
    s.dispatch(Action::Submit);
    assert_eq!(s.examination().score(), Some(3));
    assert_eq!(s.mode(), Mode::Alert);
    s.handle_key(Key::Enter).unwrap();
    assert_eq!(s.examination().state(), State::End);
}

#[test]
fn session_submits_when_time_is_up() {
    let (question_tx, _question_rx) = unbounded_channel();
    let (_answer_tx, answer_rx) = unbounded_channel();
    let exam = Examination::new(question_tx, answer_rx, vec![judge("Yes", Some("Yes"))], config(0, 0, 1, 0), 5);
    let (_q2_tx, q2_rx) = unbounded_channel();
    let (a2_tx, _a2_rx) = unbounded_channel();
    let mut s = Session::new(exam, UserInput::new(q2_rx, a2_tx), Timer::starting_at(100, 60));
    s.tick(150).unwrap();
    assert_eq!(s.examination().score(), None);
    s.tick(160).unwrap();
    assert_eq!(s.examination().score(), Some(5));
    assert_eq!(s.mode(), Mode::Alert);
}

#[test]
fn judge_surface_answers_yes() {
    let mut r = rig(vec![judge("Yes", None)], config(0, 0, 1, 0));
    r.exam.next_tab();
    r.exam.next_tab();
    assert!(matches!(r.exam.request_answer(&mut r.mode), Ok(true)));
    assert!(r.input.poll_request(&r.mode));
    r.input.handle_key_event(Key::Char('Y'), &r.mode).unwrap();
    assert!(r.input.question().is_none());
    assert!(matches!(r.exam.poll_answer(&mut r.mode), Ok(true)));
    assert!(r.exam.all_answered());
    assert_eq!(r.exam.cal_score(), 5);
}

#[test]
fn surface_edits_and_switches_slots() {
    let (_tx, rx) = unbounded_channel();
    let (atx, _arx) = unbounded_channel();
    let mut ui = UserInput::new(rx, atx);
    let q = QuestionEnum::FillIn(FillIn {
        question: "( ) ( )".to_string(),
        items: vec![
            FillInItem { answer: "a".to_string(), user_input: None, score: 1 },
            FillInItem { answer: "b".to_string(), user_input: Some("b".to_string()), score: 1 },
        ],
    });
    assert!(ui.receive(q).is_ok());
    assert_eq!(ui.current_input_idx(), Some(0));
    ui.enter_char('x');
    ui.move_cursor_left();
    ui.enter_char('y');
    assert_eq!(ui.current_input(), "yx");
    assert_eq!(ui.character_index(), 1);
    ui.move_cursor_next();
    assert_eq!(ui.current_input_idx(), Some(1));
    assert_eq!(ui.character_index(), 0);
    assert_eq!(ui.current_input(), "b");
    ui.move_cursor_next();
    assert_eq!(ui.current_input_idx(), Some(0));
    assert_eq!(ui.clamp_cursor(9), 2);
    assert_eq!(ui.receive(judge("Yes", None)), Err(ExamError::ProtocolViolation));
    let answered = ui.take_answered().unwrap();
    assert_eq!(answered.user_input(), vec![Some("yx".to_string()), Some("b".to_string())]);
}

#[test]
fn timer_counts_down_and_stops_at_zero() {
    let t = Timer::starting_at(1000, 90);
    assert_eq!(t.remaining_at(999), 90);
    assert_eq!(t.remaining_at(1030), 60);
    assert_eq!(t.remaining_at(1090), 0);
    assert_eq!(t.remaining_at(5000), 0);
    assert!(t.expired_at(1090));
    assert!(!t.expired_at(1089));
    assert_eq!(exam_engine::timer::clock_face(3725), (1, 2, 5));
    assert!(Timer::new(30).remaining() <= 30);
}

#[test]
fn session_ignores_submit_while_answering() {
    let (question_tx, question_rx) = unbounded_channel();
    let (answer_tx, answer_rx) = unbounded_channel();
    let exam = Examination::new(question_tx, answer_rx, vec![single(0, "A", Some("a"))], config(1, 0, 0, 0), 5);
    let mut s = Session::new(exam, UserInput::new(question_rx, answer_tx), Timer::starting_at(0, 600));
    s.handle_key(Key::Enter).unwrap();
    assert_eq!(s.mode(), Mode::Input);
    s.dispatch(Action::Submit);
    assert_eq!(s.mode(), Mode::Input);
    assert_eq!(s.examination().score(), None);
    s.tick(1).unwrap();
    s.handle_key(Key::Esc).unwrap();
    s.tick(2).unwrap();
    assert_eq!(s.mode(), Mode::Examination);
    s.dispatch(Action::Submit);
    assert_eq!(s.examination().score(), Some(10));
    assert_eq!(s.alert().confirm_event, ConfirmEvent::Score);
}
