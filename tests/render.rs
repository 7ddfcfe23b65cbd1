use exam_engine::examination::State;
use exam_engine::question::{FillIn, FillInItem, Judge, MultiSelect, QuestionEnum, SingleSelect};
use exam_engine::render::{letter_indices, option_style, to_idx, user_input_span, Lang, Piece, Tone};
use exam_engine::text::decimal;

fn view(lines: &[Vec<Piece>]) -> Vec<Vec<(String, Tone)>> {
    lines.iter().map(|l| l.iter().map(|p| (p.text.clone(), p.tone)).collect()).collect()
}

fn s(x: &str) -> String {
    x.to_string()
}

#[test]
fn split_question_at_full_width_blank() {
    let parts = Lang::CN.split("太阳东升西落，对吗？（ ）").unwrap();
    assert_eq!(parts, vec![s("太阳东升西落，对吗？"), s("")]);
}

#[test]
fn bracket_style_is_detected() {
    assert_eq!(Lang::check("对吗？（ ）"), Some(Lang::CN));
    assert_eq!(Lang::check("Is it ( ) ?"), Some(Lang::EN));
    assert_eq!(Lang::check("Is it ()"), Some(Lang::EN));
    assert_eq!(Lang::check("no blank"), None);
    assert_eq!(Lang::CN.parentheses(), (s("（"), s("）")));
    assert_eq!(Lang::EN.parentheses(), (s("("), s(")")));
}

#[test]
fn letters_map_to_option_indices() {
    assert_eq!(to_idx("A"), Some(0));
    assert_eq!(to_idx("h"), Some(7));
    assert_eq!(to_idx("I"), None);
    assert_eq!(to_idx("AB"), None);
    assert_eq!(to_idx(""), None);
    assert_eq!(letter_indices("a,C!z"), vec![0, 2]);
}

#[test]
fn option_tones_follow_state() {
    let chosen = Some(vec![1]);
    let key = vec![0];
    assert_eq!(option_style(State::Ing, 1, &chosen, &key), Tone::Chosen);
    assert_eq!(option_style(State::Ing, 0, &chosen, &key), Tone::Plain);
    assert_eq!(option_style(State::End, 1, &chosen, &key), Tone::Wrong);
    assert_eq!(option_style(State::End, 0, &chosen, &key), Tone::Right);
    assert_eq!(option_style(State::End, 2, &chosen, &key), Tone::Plain);
    assert_eq!(option_style(State::End, 0, &None, &key), Tone::Plain);
}

#[test]
fn single_select_lines() {
    let q = SingleSelect {
        question: s("Pick（ ）"),
        options: vec![s("A. x"), s("B. y")],
        answer: s("A"),
        user_input: Some(s("b")),
        score: 1,
    };
    let lines = view(&q.convert_text(State::End, 9));
    assert_eq!(
        lines,
        vec![
            vec![(s("10: Pick（b）"), Tone::Plain)],
            vec![(s("  A. x"), Tone::Right)],
            vec![(s("  B. y"), Tone::Wrong)],
        ]
    );
}

#[test]
fn multi_select_lines_while_answering() {
    let q = MultiSelect {
        question: s("Pick some（ ）"),
        options: vec![s("A"), s("B"), s("C")],
        answer: s("AC"),
        user_input: Some(s("ca")),
        score: 1,
    };
    let lines = view(&QuestionEnum::MultiSelect(q).convert_text(State::Ing, 0));
    assert_eq!(lines[0], vec![(s("1: Pick some（ca）"), Tone::Plain)]);
    assert_eq!(lines[1][0].1, Tone::Chosen);
    assert_eq!(lines[2][0].1, Tone::Plain);
    assert_eq!(lines[3][0].1, Tone::Chosen);
}

#[test]
fn judge_line_shows_wrong_answer_and_key() {
    let q = Judge { question: s("Sun rises in the west? ( ) really"), answer: s("No"), user_input: Some(s("Yes")), score: 1 };
    let lines = view(&q.convert_text(State::End, 1));
    assert_eq!(
        lines,
        vec![vec![
            (s("2: Sun rises in the west? "), Tone::Plain),
            (s("("), Tone::Plain),
            (s("Yes"), Tone::Wrong),
            (s("No"), Tone::Right),
            (s(")"), Tone::Plain),
            (s(" really"), Tone::Plain),
        ]]
    );
    let unanswered = Judge { user_input: None, ..q };
    assert_eq!(view(&unanswered.convert_text(State::Ing, 0)), vec![vec![(s("1: Sun rises in the west? ( ) really"), Tone::Plain)]]);
}

#[test]
fn fill_in_line_alternates_text_and_blanks() {
    let q = FillIn {
        question: s("红（ ）绿（）"),
        items: vec![
            FillInItem { answer: s("橙"), user_input: Some(s("橙")), score: 1 },
            FillInItem { answer: s("蓝"), user_input: None, score: 1 },
        ],
    };
    let lines = view(&q.convert_text(State::End, 0));
    assert_eq!(
        lines,
        vec![vec![
            (s("1: 红"), Tone::Plain),
            (s("（"), Tone::Plain),
            (s("橙"), Tone::Right),
            (s("）"), Tone::Plain),
            (s("绿"), Tone::Plain),
            (s("（"), Tone::Plain),
            (s("）"), Tone::Plain),
            (s(""), Tone::Plain),
            (s(""), Tone::Plain),
        ]]
    );
}

#[test]
fn response_pieces_while_answering() {
    let pieces = user_input_span(State::Ing, &s("x"), &s("y"), false, Lang::CN);
    let v: Vec<(String, Tone)> = pieces.iter().map(|p| (p.text.clone(), p.tone)).collect();
    assert_eq!(v, vec![(s("（"), Tone::Plain), (s("x"), Tone::Plain), (s("）"), Tone::Plain)]);
}

#[test]
fn decimal_numbers() {
    assert_eq!(decimal(0), "0");
    assert_eq!(decimal(7), "7");
    assert_eq!(decimal(1204), "1204");
    assert_eq!(decimal(u64::MAX), "18446744073709551615");
}

#[test]
fn judge_answer_in_other_case_is_shown_right() {
    let q = Judge { question: s("对吗？（ ）"), answer: s("Yes"), user_input: Some(s("yes")), score: 1 };
    assert_eq!(
        view(&q.convert_text(State::End, 0)),
        vec![vec![
            (s("1: 对吗？"), Tone::Plain),
            (s("（"), Tone::Plain),
            (s("yes"), Tone::Right),
            (s("）"), Tone::Plain),
            (s(""), Tone::Plain),
        ]]
    );
}
