use exam_engine::question::{
    equals_ignoring_case, same_letter_set, FillIn, FillInItem, Judge, MultiSelect, Question, QuestionEnum,
    SingleSelect,
};

fn single(answer: &str, input: Option<&str>, score: u16) -> SingleSelect {
    SingleSelect {
        question: "选哪一个？（ ）".to_string(),
        options: vec!["A. one".to_string(), "B. two".to_string(), "C. three".to_string()],
        answer: answer.to_string(),
        user_input: input.map(|s| s.to_string()),
        score,
    }
}

fn multi(answer: &str, input: Option<&str>, score: u16) -> MultiSelect {
    MultiSelect {
        question: "question".to_string(),
        options: vec!["A".to_string(), "B".to_string(), "C".to_string()],
        answer: answer.to_string(),
        user_input: input.map(|s| s.to_string()),
        score,
    }
}

fn blank(answer: &str, input: Option<&str>, score: u16) -> FillInItem {
    FillInItem { answer: answer.to_string(), user_input: input.map(|s| s.to_string()), score }
}

#[test]
fn test_cal_score() {
    let multi_select = MultiSelect {
        question: "question".to_string(),
        options: vec!["A".to_string(), "B".to_string()],
        answer: "AB".to_string(),
        user_input: Some("ba".to_string()),
        score: 1,
    };
    let score = multi_select.cal_score();
    assert_eq!(score, 1);
}

#[test]
fn single_select_scores_case_insensitively() {
    assert_eq!(single("B", Some("b"), 5).cal_score(), 5);
    assert_eq!(single("B", Some("B"), 5).cal_score(), 5);
    assert_eq!(single("B", Some("c"), 5).cal_score(), 0);
    assert_eq!(single("B", None, 5).cal_score(), 0);
}

#[test]
fn single_select_empty_response_is_unanswered() {
    let q = single("B", Some(""), 5);
    assert!(!q.answered());
    assert_eq!(q.cal_score(), 0);
    assert!(single("B", Some("A"), 5).answered());
}

#[test]
fn judge_compares_character_by_character() {
    let j = |input: Option<&str>| Judge {
        question: "太阳东升西落，对吗？（ ）".to_string(),
        answer: "Yes".to_string(),
        user_input: input.map(|s| s.to_string()),
        score: 2,
    };
    assert_eq!(j(Some("yes")).cal_score(), 2);
    assert_eq!(j(Some("YES")).cal_score(), 2);
    assert_eq!(j(Some("sey")).cal_score(), 0);
    assert_eq!(j(Some("No")).cal_score(), 0);
    assert_eq!(j(None).cal_score(), 0);
}

#[test]
fn multi_select_compares_letter_sets() {
    assert_eq!(multi("AB", Some("ba"), 3).cal_score(), 3);
    assert_eq!(multi("AB", Some("A"), 3).cal_score(), 0);
    assert_eq!(multi("AB", Some("ABC"), 3).cal_score(), 0);
    assert_eq!(multi("AB", Some("abba"), 3).cal_score(), 3);
    assert_eq!(multi("AB", None, 3).cal_score(), 0);
}

#[test]
fn fill_in_sums_correct_blanks() {
    let q = FillIn {
        question: "( ) and ( )".to_string(),
        items: vec![blank("red", Some("red"), 2), blank("blue", Some("green"), 3)],
    };
    assert_eq!(q.cal_score(), 2);
    assert!(q.answered());
}

#[test]
fn fill_in_blank_is_case_sensitive_for_words() {
    let q = FillIn {
        question: "( )".to_string(),
        items: vec![blank("Paris", Some("paris"), 4), blank("x", Some("X"), 1)],
    };
    assert_eq!(q.cal_score(), 1);
}

#[test]
fn fill_in_needs_every_blank() {
    let q = FillIn {
        question: "( ) ( )".to_string(),
        items: vec![blank("a", Some("a"), 1), blank("b", None, 1)],
    };
    assert!(!q.answered());
    assert_eq!(q.cal_score(), 1);
}

#[test]
fn fill_in_without_blanks_is_answered_and_scores_nothing() {
    let q = FillIn { question: "nothing".to_string(), items: vec![] };
    assert!(q.answered());
    assert_eq!(q.cal_score(), 0);
}

#[test]
fn fill_in_total_saturates() {
    let items = (0..3).map(|_| blank("a", Some("a"), u16::MAX)).collect::<Vec<_>>();
    let q = FillIn { question: "big".to_string(), items };
    assert_eq!(q.cal_score(), 3 * u16::MAX as u64);
}

#[test]
fn set_user_input_fills_slots_positionally() {
    let mut q = QuestionEnum::FillIn(FillIn {
        question: "( ) ( ) ( )".to_string(),
        items: vec![blank("a", None, 1), blank("b", None, 1), blank("c", Some("c"), 1)],
    });
    q.set_user_input(vec![Some("a".to_string()), Some("x".to_string())]);
    assert_eq!(q.user_input(), vec![Some("a".to_string()), Some("x".to_string()), Some("c".to_string())]);
    assert!(q.answered());
    assert_eq!(q.cal_score(), 2);
    assert_eq!(q.input_size(), 3);
}

#[test]
fn set_user_input_on_select_takes_first_value() {
    let mut q = QuestionEnum::SingleSelect(single("C", None, 4));
    assert!(!q.answered());
    q.set_user_input(vec![Some("c".to_string())]);
    assert!(q.answered());
    assert_eq!(q.cal_score(), 4);
    q.set_user_input(vec![]);
    assert_eq!(q.user_input(), vec![Some("c".to_string())]);
}

#[test]
fn answered_stays_when_slots_are_refilled() {
    let mut q = QuestionEnum::MultiSelect(multi("AC", Some("A"), 2));
    assert!(q.answered());
    q.set_user_input(vec![Some("CA".to_string())]);
    assert!(q.answered());
    assert_eq!(q.cal_score(), 2);
}

#[test]
fn duplicate_keeps_grading() {
    let q = QuestionEnum::Judge(Judge {
        question: "q（ ）".to_string(),
        answer: "No".to_string(),
        user_input: Some("no".to_string()),
        score: 7,
    });
    let d = q.duplicate();
    assert_eq!(d.cal_score(), q.cal_score());
    assert_eq!(d.answered(), q.answered());
    assert!(d.same_question(&q));
    assert_eq!(d.kind_index(), 2);
}

#[test]
fn case_helpers() {
    assert!(equals_ignoring_case("ÄbC", "äBc"));
    assert!(!equals_ignoring_case("ab", "abc"));
    assert!(same_letter_set("cab", "ABC"));
    assert!(!same_letter_set("ab", "abc"));
}
