//! What a question looks like on screen: lines of text pieces, each with a tone
//! that marks chosen, right and wrong answers.
use vstd::prelude::*;
use crate::examination::State;
use crate::question::{
    blank_is_right, blank_right, equals_ignoring_case, same_ignoring_case, texts, FillIn, FillInItem, Judge,
    MultiSelect, QuestionEnum, SingleSelect,
};
use crate::text::{decimal, decimal_of, joined, replace_all, replaced};

verus! {

/// Whether `pattern` is a regular expression that compiles.
pub uninterp spec fn regex_compiles(pattern: Seq<char>) -> bool;

/// Whether the compiled `pattern` matches somewhere in `text`.
pub uninterp spec fn regex_finds(pattern: Seq<char>, text: Seq<char>) -> bool;

/// The parts of `text` between the matches of the compiled `pattern`.
pub uninterp spec fn regex_pieces(pattern: Seq<char>, text: Seq<char>) -> Seq<Seq<char>>;

/// Relies on `Regex::new`, which compiles the pattern or rejects it, and
/// `Regex::is_match`, which tells whether it matches somewhere in the text.
#[verifier::external_body]
fn pattern_found(pattern: &str, text: &str) -> (r: Option<bool>)
    ensures
        r is Some <==> regex_compiles(pattern@),
        r is Some ==> r->0 == regex_finds(pattern@, text@),
{
    match regex::Regex::new(pattern) {
        Ok(re) => Some(re.is_match(text)),
        Err(_) => None,
    }
}

/// Relies on `Regex::new`, which compiles the pattern or rejects it, and
/// `Regex::split`, which yields the parts of the text between matches.
#[verifier::external_body]
fn pattern_split(pattern: &str, text: &str) -> (r: Option<Vec<String>>)
    ensures
        r is Some <==> regex_compiles(pattern@),
        r is Some ==> texts(r->0@) == regex_pieces(pattern@, text@),
{
    match regex::Regex::new(pattern) {
        Ok(re) => Some(re.split(text).map(|s| s.to_string()).collect()),
        Err(_) => None,
    }
}

/// The bracket style of a question: ASCII or full-width parentheses.
#[derive(Clone, Copy, Debug, PartialEq, Eq, Structural)]
pub enum Lang {
    EN,
    CN,
}

impl Lang {
    pub open spec fn pattern_text(self) -> Seq<char> {
        match self {
            Lang::EN => "\\(\\s*\\)|\\(\\)"@,
            Lang::CN => "（\\s*）|（）"@,
        }
    }

    pub open spec fn open_text(self) -> Seq<char> {
        match self {
            Lang::EN => "("@,
            Lang::CN => "（"@,
        }
    }

    pub open spec fn close_text(self) -> Seq<char> {
        match self {
            Lang::EN => ")"@,
            Lang::CN => "）"@,
        }
    }

    /// The opening and closing parenthesis.
    pub fn parentheses(&self) -> (r: (String, String))
        ensures
            r.0@ == self.open_text(),
            r.1@ == self.close_text(),
    {
        match self {
            Lang::EN => ("(".to_string(), ")".to_string()),
            Lang::CN => ("（".to_string(), "）".to_string()),
        }
    }

    /// The pattern of an empty pair of parentheses, a blank to fill.
    pub fn pattern(&self) -> (r: &'static str)
        ensures
            r@ == self.pattern_text(),
    {
        match self {
            Lang::EN => "\\(\\s*\\)|\\(\\)",
            Lang::CN => "（\\s*）|（）",
        }
    }

    /// The bracket style of `question`: full-width when its blanks are
    /// full-width, else ASCII when its blanks are ASCII, else none.
    pub fn check(question: &str) -> (r: Option<Lang>)
        ensures
            r == lang_of(question@),
    {
        match pattern_found(Lang::CN.pattern(), question) {
            Some(true) => {
                return Some(Lang::CN);
            },
            _ => {},
        }
        match pattern_found(Lang::EN.pattern(), question) {
            Some(true) => Some(Lang::EN),
            _ => None,
        }
    }

    /// The parts of `text` around its blanks of this style.
    pub fn split(&self, text: &str) -> (r: Option<Vec<String>>)
        ensures
            r is Some <==> regex_compiles(self.pattern_text()),
            r is Some ==> texts(r->0@) == regex_pieces(self.pattern_text(), text@),
    {
        pattern_split(self.pattern(), text)
    }
}

/// The bracket style that `Lang::check` finds in `q`.
pub open spec fn lang_of(q: Seq<char>) -> Option<Lang> {
    if regex_compiles(Lang::CN.pattern_text()) && regex_finds(Lang::CN.pattern_text(), q) {
        Some(Lang::CN)
    } else if regex_compiles(Lang::EN.pattern_text()) && regex_finds(Lang::EN.pattern_text(), q) {
        Some(Lang::EN)
    } else {
        None
    }
}

/// How a piece of text is highlighted.
#[derive(Clone, Copy, Debug, PartialEq, Eq, Structural)]
pub enum Tone {
    Plain,
    /// Chosen while answering.
    Chosen,
    /// Right, or the right answer shown after the end.
    Right,
    /// Chosen but wrong, after the end.
    Wrong,
}

/// A piece of text with its tone.
#[derive(Clone, Debug)]
pub struct Piece {
    pub text: String,
    pub tone: Tone,
}

pub open spec fn piece_view(p: Piece) -> (Seq<char>, Tone) {
    (p.text@, p.tone)
}

pub open spec fn line_view(l: Vec<Piece>) -> Seq<(Seq<char>, Tone)> {
    l@.map_values(|p: Piece| piece_view(p))
}

pub open spec fn lines_view(t: Vec<Vec<Piece>>) -> Seq<Seq<(Seq<char>, Tone)>> {
    t@.map_values(|l: Vec<Piece>| line_view(l))
}

/// The option index of a letter, `A` to `H` in either case.
pub open spec fn letter_value(c: char) -> Option<usize> {
    let v = c as u32;
    if 65 <= v <= 72 {
        Some((v - 65) as usize)
    } else if 97 <= v <= 104 {
        Some((v - 97) as usize)
    } else {
        None
    }
}

/// The option index named by `s`, a single letter.
pub open spec fn letter_index(s: Seq<char>) -> Option<usize> {
    if s.len() == 1 {
        letter_value(s[0])
    } else {
        None
    }
}

/// The option indices named by the letters of `s`, other characters skipped.
pub open spec fn letters(s: Seq<char>) -> Seq<usize>
    decreases s.len(),
{
    if s.len() == 0 {
        Seq::empty()
    } else {
        let rest = letters(s.drop_last());
        match letter_value(s.last()) {
            Some(i) => rest.push(i),
            None => rest,
        }
    }
}

/// The option index of one letter.
fn letter_of(c: char) -> (r: Option<usize>)
    ensures
        r == letter_value(c),
{
    let v = c as u32;
    if 65 <= v && v <= 72 {
        Some((v - 65) as usize)
    } else if 97 <= v && v <= 104 {
        Some((v - 97) as usize)
    } else {
        None
    }
}

/// The option index named by `answer`: `A`..`H` or `a`..`h` give 0..7; anything
/// else gives none.
pub fn to_idx(answer: &str) -> (r: Option<usize>)
    ensures
        r == letter_index(answer@),
{
    if answer.unicode_len() != 1 {
        return None;
    }
    letter_of(answer.get_char(0))
}

/// The option indices named by the letters of `s`.
pub fn letter_indices(s: &str) -> (r: Vec<usize>)
    ensures
        r@ == letters(s@),
{
    let n = s.unicode_len();
    let mut r: Vec<usize> = Vec::new();
    let mut i: usize = 0;
    while i < n
        invariant
            n == s@.len(),
            i <= n,
            r@ == letters(s@.subrange(0, i as int)),
        decreases n - i,
    {
        let c = s.get_char(i);
        assert(s@.subrange(0, i + 1).drop_last() =~= s@.subrange(0, i as int));
        match letter_of(c) {
            Some(k) => r.push(k),
            None => {},
        }
        i += 1;
    }
    assert(s@.subrange(0, n as int) =~= s@);
    r
}

/// The tone of option `i`: while answering, chosen options stand out; after the
/// end, right options are right and chosen wrong ones are wrong.
pub open spec fn tone_of(state: State, i: usize, chosen: Option<Seq<usize>>, key: Seq<usize>) -> Tone {
    match chosen {
        None => Tone::Plain,
        Some(ch) => match state {
            State::Ing => if ch.contains(i) { Tone::Chosen } else { Tone::Plain },
            State::End => if key.contains(i) && ch.contains(i) {
                Tone::Right
            } else if ch.contains(i) {
                Tone::Wrong
            } else if key.contains(i) {
                Tone::Right
            } else {
                Tone::Plain
            },
        },
    }
}

fn holds(v: &Vec<usize>, x: usize) -> (r: bool)
    ensures
        r == v@.contains(x),
{
    let mut i: usize = 0;
    while i < v.len()
        invariant
            i <= v@.len(),
            forall|j: int| 0 <= j < i ==> v@[j] != x,
        decreases v@.len() - i,
    {
        if v[i] == x {
            return true;
        }
        i += 1;
    }
    false
}

/// The tone of option `i` given the chosen and the right option indices.
pub fn option_style(state: State, i: usize, user_input_idx: &Option<Vec<usize>>, answer_idx: &Vec<usize>) -> (r: Tone)
    ensures
        r == tone_of(state, i, match user_input_idx {
            Some(v) => Some(v@),
            None => None,
        }, answer_idx@),
{
    match user_input_idx {
        None => Tone::Plain,
        Some(ch) => match state {
            State::Ing => if holds(ch, i) { Tone::Chosen } else { Tone::Plain },
            State::End => {
                let chosen = holds(ch, i);
                let right = holds(answer_idx, i);
                if right && chosen {
                    Tone::Right
                } else if chosen {
                    Tone::Wrong
                } else if right {
                    Tone::Right
                } else {
                    Tone::Plain
                }
            },
        },
    }
}

/// The number label of question `index`: its 1-based number and a colon.
pub open spec fn label_of(index: usize) -> Seq<char> {
    decimal_of(index as nat + 1) + ": "@
}

fn label(index: usize) -> (r: String)
    requires
        index < usize::MAX,
    ensures
        r@ == label_of(index),
{
    joined(decimal((index + 1) as u64).as_str(), ": ")
}

/// The prompt with the response written into its full-width blank.
pub open spec fn shown_prompt(question: Seq<char>, user_input: Option<String>) -> Seq<char> {
    match user_input {
        Some(u) => replaced(question, "（ ）"@, "（"@ + u@ + "）"@),
        None => question,
    }
}

/// The lines of a choice question: the numbered prompt, then one line per option.
pub open spec fn choice_view(
    state: State,
    index: usize,
    question: Seq<char>,
    options: Seq<String>,
    user_input: Option<String>,
    chosen: Option<Seq<usize>>,
    key: Seq<usize>,
) -> Seq<Seq<(Seq<char>, Tone)>> {
    seq![seq![(label_of(index) + shown_prompt(question, user_input), Tone::Plain)]] + Seq::new(
        options.len(),
        |i: int| seq![("  "@ + options[i]@, tone_of(state, i as usize, chosen, key))],
    )
}

fn choice_lines(
    state: State,
    index: usize,
    question: &String,
    options: &Vec<String>,
    user_input: &Option<String>,
    chosen: &Option<Vec<usize>>,
    key: &Vec<usize>,
) -> (r: Vec<Vec<Piece>>)
    requires
        index < usize::MAX,
    ensures
        lines_view(r) == choice_view(state, index, question@, options@, *user_input, match chosen {
            Some(v) => Some(v@),
            None => None,
        }, key@),
{
    let ghost want = choice_view(state, index, question@, options@, *user_input, match chosen {
        Some(v) => Some(v@),
        None => None,
    }, key@);
    let prompt = match user_input {
        Some(u) => {
            let filled = joined(joined("（", u.as_str()).as_str(), "）");
            proof {
                reveal_strlit("（ ）");
            }
            replace_all(question.as_str(), "（ ）", filled.as_str())
        },
        None => question.clone(),
    };
    let head = joined(label(index).as_str(), prompt.as_str());
    let mut lines: Vec<Vec<Piece>> = Vec::new();
    lines.push(vec![Piece { text: head, tone: Tone::Plain }]);
    assert(line_view(lines@[0]) =~= want[0]);
    let mut i: usize = 0;
    while i < options.len()
        invariant
            i <= options@.len(),
            want.len() == options@.len() + 1,
            lines@.len() == i + 1,
            want == choice_view(state, index, question@, options@, *user_input, match chosen {
                Some(v) => Some(v@),
                None => None,
            }, key@),
            forall|j: int| 0 <= j <= i ==> #[trigger] line_view(lines@[j]) == want[j],
        decreases options@.len() - i,
    {
        let tone = option_style(state, i, chosen, key);
        let text = joined("  ", options[i].as_str());
        lines.push(vec![Piece { text, tone }]);
        assert(line_view(lines@[i + 1]) =~= want[i + 1]);
        i += 1;
    }
    assert(lines_view(lines) =~= want);
    lines
}

/// The pieces showing a response between parentheses: while answering as typed;
/// after the end, a right response is right, and a wrong one is followed by the
/// right answer.
pub open spec fn response_view(state: State, user_input: Seq<char>, answer: Seq<char>, right: bool, lang: Lang) -> Seq<(Seq<char>, Tone)> {
    match state {
        State::Ing => seq![(lang.open_text(), Tone::Plain), (user_input, Tone::Plain), (lang.close_text(), Tone::Plain)],
        State::End => if right {
            seq![(lang.open_text(), Tone::Plain), (user_input, Tone::Right), (lang.close_text(), Tone::Plain)]
        } else {
            seq![
                (lang.open_text(), Tone::Plain),
                (user_input, Tone::Wrong),
                (answer, Tone::Right),
                (lang.close_text(), Tone::Plain),
            ]
        },
    }
}

/// The pieces of a response between parentheses; `right` tells whether the
/// response is graded right.
pub fn user_input_span(state: State, user_input: &String, answer: &String, right: bool, lang: Lang) -> (r: Vec<Piece>)
    ensures
        line_view(r) == response_view(state, user_input@, answer@, right, lang),
{
    let (open, close) = lang.parentheses();
    let r = match state {
        State::Ing => vec![
            Piece { text: open, tone: Tone::Plain },
            Piece { text: user_input.clone(), tone: Tone::Plain },
            Piece { text: close, tone: Tone::Plain },
        ],
        State::End => if right {
            vec![
                Piece { text: open, tone: Tone::Plain },
                Piece { text: user_input.clone(), tone: Tone::Right },
                Piece { text: close, tone: Tone::Plain },
            ]
        } else {
            vec![
                Piece { text: open, tone: Tone::Plain },
                Piece { text: user_input.clone(), tone: Tone::Wrong },
                Piece { text: answer.clone(), tone: Tone::Right },
                Piece { text: close, tone: Tone::Plain },
            ]
        },
    };
    assert(line_view(r) =~= response_view(state, user_input@, answer@, right, lang));
    r
}

/// The chosen option of a single-choice response.
pub open spec fn single_chosen(user_input: Option<String>) -> Option<Seq<usize>> {
    match user_input {
        Some(u) => match letter_index(u@) {
            Some(i) => Some(seq![i]),
            None => None,
        },
        None => None,
    }
}

/// The right option of a single-choice key.
pub open spec fn single_key(answer: Seq<char>) -> Seq<usize> {
    match letter_index(answer) {
        Some(i) => seq![i],
        None => Seq::empty(),
    }
}

/// The chosen options of a multiple-choice response.
pub open spec fn multi_chosen(user_input: Option<String>) -> Option<Seq<usize>> {
    match user_input {
        Some(u) => Some(letters(u@)),
        None => None,
    }
}

/// The lines of a true-or-false question: the numbered prompt, with the response
/// written into its blank once there is one.
pub open spec fn judge_view(state: State, index: usize, q: Judge) -> Seq<Seq<(Seq<char>, Tone)>> {
    let plain = seq![seq![(label_of(index) + q.question@, Tone::Plain)]];
    match q.user_input {
        None => plain,
        Some(u) => match lang_of(q.question@) {
            None => plain,
            Some(lang) => {
                let parts = regex_pieces(lang.pattern_text(), q.question@);
                if parts.len() < 2 {
                    plain
                } else {
                    seq![
                        seq![(label_of(index) + parts[0], Tone::Plain)]
                            + response_view(state, u@, q.answer@, same_ignoring_case(u@, q.answer@), lang)
                            + seq![(parts[1], Tone::Plain)],
                    ]
                }
            },
        },
    }
}

/// The pieces of one blank: empty parentheses, or the response between them.
pub open spec fn blank_view(state: State, item: FillInItem, lang: Lang) -> Seq<(Seq<char>, Tone)> {
    match item.user_input {
        None => seq![(lang.open_text(), Tone::Plain), (lang.close_text(), Tone::Plain)],
        Some(u) => response_view(state, u@, item.answer@, blank_right(u@, item.answer@), lang),
    }
}

/// The pieces after text part `k`: blank `k`, or an empty piece after the last blank.
pub open spec fn after_part(state: State, items: Seq<FillInItem>, lang: Lang, k: int) -> Seq<(Seq<char>, Tone)> {
    if k < items.len() {
        blank_view(state, items[k], lang)
    } else {
        seq![(Seq::<char>::empty(), Tone::Plain)]
    }
}

/// Text part `k`, the first one numbered.
pub open spec fn part_view(index: usize, parts: Seq<Seq<char>>, k: int) -> (Seq<char>, Tone) {
    if k == 0 {
        (label_of(index) + parts[0], Tone::Plain)
    } else {
        (parts[k], Tone::Plain)
    }
}

/// The first `n` text parts, each followed by its blank.
pub open spec fn fill_pieces(
    state: State,
    index: usize,
    parts: Seq<Seq<char>>,
    items: Seq<FillInItem>,
    lang: Lang,
    n: int,
) -> Seq<(Seq<char>, Tone)>
    decreases n,
{
    if n <= 0 {
        Seq::empty()
    } else {
        fill_pieces(state, index, parts, items, lang, n - 1) + seq![part_view(index, parts, n - 1)]
            + after_part(state, items, lang, n - 1)
    }
}

/// The line of a fill-in question: text parts alternating with blanks.
pub open spec fn fill_view(state: State, index: usize, q: FillIn) -> Seq<Seq<(Seq<char>, Tone)>> {
    match lang_of(q.question@) {
        None => seq![seq![(label_of(index) + q.question@, Tone::Plain)]],
        Some(lang) => {
            let parts = regex_pieces(lang.pattern_text(), q.question@);
            let n = if parts.len() < q.items@.len() + 1 { parts.len() } else { q.items@.len() + 1 };
            seq![fill_pieces(state, index, parts, q.items@, lang, n as int)]
        },
    }
}

impl SingleSelect {
    /// The lines showing the question as number `q_index + 1`.
    pub fn convert_text(&self, state: State, q_index: usize) -> (r: Vec<Vec<Piece>>)
        requires
            q_index < usize::MAX,
        ensures
            lines_view(r) == choice_view(state, q_index, self.question@, self.options@, self.user_input,
                single_chosen(self.user_input), single_key(self.answer@)),
    {
        let chosen: Option<Vec<usize>> = match &self.user_input {
            Some(u) => match to_idx(u.as_str()) {
                Some(i) => Some(vec![i]),
                None => None,
            },
            None => None,
        };
        let key: Vec<usize> = match to_idx(self.answer.as_str()) {
            Some(i) => vec![i],
            None => Vec::new(),
        };
        proof {
            if chosen is Some {
                assert(chosen->0@ =~= single_chosen(self.user_input)->0);
            }
            assert(key@ =~= single_key(self.answer@));
        }
        choice_lines(state, q_index, &self.question, &self.options, &self.user_input, &chosen, &key)
    }
}

impl MultiSelect {
    /// The lines showing the question as number `q_index + 1`.
    pub fn convert_text(&self, state: State, q_index: usize) -> (r: Vec<Vec<Piece>>)
        requires
            q_index < usize::MAX,
        ensures
            lines_view(r) == choice_view(state, q_index, self.question@, self.options@, self.user_input,
                multi_chosen(self.user_input), letters(self.answer@)),
    {
        let chosen: Option<Vec<usize>> = match &self.user_input {
            Some(u) => Some(letter_indices(u.as_str())),
            None => None,
        };
        let key = letter_indices(self.answer.as_str());
        choice_lines(state, q_index, &self.question, &self.options, &self.user_input, &chosen, &key)
    }
}

impl Judge {
    /// The lines showing the question as number `q_index + 1`.
    pub fn convert_text(&self, state: State, q_index: usize) -> (r: Vec<Vec<Piece>>)
        requires
            q_index < usize::MAX,
        ensures
            lines_view(r) == judge_view(state, q_index, *self),
    {
        let ghost want = judge_view(state, q_index, *self);
        let head = label(q_index);
        let plain = vec![vec![Piece { text: joined(head.as_str(), self.question.as_str()), tone: Tone::Plain }]];
        assert(lines_view(plain) =~= seq![seq![(label_of(q_index) + self.question@, Tone::Plain)]]) by {
            assert(line_view(plain@[0]) =~= seq![(label_of(q_index) + self.question@, Tone::Plain)]);
        }
        let u = match &self.user_input {
            Some(u) => u,
            None => {
                return plain;
            },
        };
        let lang = match Lang::check(self.question.as_str()) {
            Some(lang) => lang,
            None => {
                return plain;
            },
        };
        let parts = match lang.split(self.question.as_str()) {
            Some(parts) => parts,
            None => {
                return plain;
            },
        };
        if parts.len() < 2 {
            return plain;
        }
        let mut line = vec![Piece { text: joined(head.as_str(), parts[0].as_str()), tone: Tone::Plain }];
        let right = equals_ignoring_case(u.as_str(), self.answer.as_str());
        let mut answer = user_input_span(state, u, &self.answer, right, lang);
        line.append(&mut answer);
        line.push(Piece { text: parts[1].clone(), tone: Tone::Plain });
        let lines = vec![line];
        proof {
            assert(texts(parts@)[0] == parts@[0]@);
            assert(texts(parts@)[1] == parts@[1]@);
            assert(line_view(lines@[0]) =~= want[0]);
            assert(lines_view(lines) =~= want);
        }
        lines
    }
}

impl FillIn {
    /// The line showing the question as number `q_index + 1`.
    pub fn convert_text(&self, state: State, q_index: usize) -> (r: Vec<Vec<Piece>>)
        requires
            q_index < usize::MAX,
        ensures
            lines_view(r) == fill_view(state, q_index, *self),
    {
        let ghost want = fill_view(state, q_index, *self);
        let head = label(q_index);
        let lang = match Lang::check(self.question.as_str()) {
            Some(lang) => lang,
            None => {
                let plain = vec![vec![Piece { text: joined(head.as_str(), self.question.as_str()), tone: Tone::Plain }]];
                assert(line_view(plain@[0]) =~= want[0]);
                assert(lines_view(plain) =~= want);
                return plain;
            },
        };
        let parts = lang.split(self.question.as_str()).unwrap();
        let ghost pv = regex_pieces(lang.pattern_text(), self.question@);
        let n = if parts.len() <= self.items.len() { parts.len() } else { self.items.len() + 1 };
        let (open, close) = lang.parentheses();
        let mut line: Vec<Piece> = Vec::new();
        let mut k: usize = 0;
        while k < n
            invariant
                n <= parts@.len(),
                n <= self.items@.len() + 1,
                k <= n,
                texts(parts@) == pv,
                open@ == lang.open_text(),
                close@ == lang.close_text(),
                head@ == label_of(q_index),
                line_view(line) == fill_pieces(state, q_index, pv, self.items@, lang, k as int),
            decreases n - k,
        {
            let ghost before = line_view(line);
            let text = if k == 0 { joined(head.as_str(), parts[0].as_str()) } else { parts[k].clone() };
            assert(texts(parts@)[k as int] == parts@[k as int]@);
            line.push(Piece { text, tone: Tone::Plain });
            let mut after: Vec<Piece> = if k < self.items.len() {
                match &self.items[k].user_input {
                    None => vec![
                        Piece { text: open.clone(), tone: Tone::Plain },
                        Piece { text: close.clone(), tone: Tone::Plain },
                    ],
                    Some(u) => {
                        let right = blank_is_right(u, &self.items[k].answer);
                        user_input_span(state, u, &self.items[k].answer, right, lang)
                    },
                }
            } else {
                vec![Piece { text: String::new(), tone: Tone::Plain }]
            };
            assert(line_view(after) =~= after_part(state, self.items@, lang, k as int));
            line.append(&mut after);
            assert(line_view(line) =~= before + seq![part_view(q_index, pv, k as int)]
                + after_part(state, self.items@, lang, k as int));
            k += 1;
        }
        let lines = vec![line];
        assert(lines_view(lines) =~= want);
        lines
    }
}

impl QuestionEnum {
    /// The lines showing the question as number `q_index + 1`.
    pub fn convert_text(&self, state: State, q_index: usize) -> (r: Vec<Vec<Piece>>)
        requires
            q_index < usize::MAX,
        ensures
            lines_view(r) == match self {
                QuestionEnum::SingleSelect(q) => choice_view(state, q_index, q.question@, q.options@, q.user_input,
                    single_chosen(q.user_input), single_key(q.answer@)),
                QuestionEnum::MultiSelect(q) => choice_view(state, q_index, q.question@, q.options@, q.user_input,
                    multi_chosen(q.user_input), letters(q.answer@)),
                QuestionEnum::Judge(q) => judge_view(state, q_index, *q),
                QuestionEnum::FillIn(q) => fill_view(state, q_index, *q),
            },
    {
        match self {
            QuestionEnum::SingleSelect(q) => q.convert_text(state, q_index),
            QuestionEnum::MultiSelect(q) => q.convert_text(state, q_index),
            QuestionEnum::Judge(q) => q.convert_text(state, q_index),
            QuestionEnum::FillIn(q) => q.convert_text(state, q_index),
        }
    }
}

/// Height of the input box for `input_size` text boxes of three rows each plus a
/// border, or a fifth of the available height when that is more.
pub fn cal_high(input_size: usize, area_height: u16) -> (r: u16)
    ensures
        r as int == {
            let needed = if 3 * input_size + 2 > u16::MAX { u16::MAX as int } else { 3 * input_size + 2 };
            if area_height / 5 > needed { (area_height / 5) as int } else { needed }
        },
{
    let needed: u16 = if input_size > 21844 { u16::MAX } else { (3 * input_size + 2) as u16 };
    if area_height / 5 > needed {
        area_height / 5
    } else {
        needed
    }
}

} // verus!
