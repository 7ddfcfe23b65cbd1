//! Question kinds, their grading rules and their "answered" predicate.
use vstd::prelude::*;

verus! {

/// What `char::to_lowercase` yields for one character (one or more characters).
pub uninterp spec fn lowercase_of(c: char) -> Seq<char>;

/// Relies on `char::to_lowercase`: the lowercase form of a character depends on
/// that character alone.
#[verifier::external_body]
fn lower_char(c: char) -> (r: String)
    ensures
        r@ == lowercase_of(c),
{
    c.to_lowercase().to_string()
}

/// Each character of `s`, lowercased on its own.
pub open spec fn folded(s: Seq<char>) -> Seq<Seq<char>> {
    s.map_values(|c: char| lowercase_of(c))
}

/// Case-insensitive character-by-character equality.
pub open spec fn same_ignoring_case(r: Seq<char>, k: Seq<char>) -> bool {
    folded(r) == folded(k)
}

/// Case-insensitive equality of the sets of characters (order and repetition ignored).
pub open spec fn same_letters(r: Seq<char>, k: Seq<char>) -> bool {
    folded(r).to_set() == folded(k).to_set()
}

/// A response slot holds a value: it is set and not empty.
pub open spec fn filled(slot: Option<String>) -> bool {
    slot is Some && slot->0@.len() > 0
}

/// A blank is right when its response equals its key; a key of one character
/// also accepts that character in the other case.
pub open spec fn blank_right(r: Seq<char>, k: Seq<char>) -> bool {
    r == k || (k.len() == 1 && same_ignoring_case(r, k))
}

/// Points earned by one blank.
pub open spec fn blank_points(item: FillInItem) -> int {
    if filled(item.user_input) && blank_right(item.user_input->0@, item.answer@) {
        item.score as int
    } else {
        0
    }
}

/// Points earned by the first `n` blanks.
pub open spec fn blanks_points(items: Seq<FillInItem>, n: int) -> int
    decreases n,
{
    if n <= 0 {
        0
    } else {
        blanks_points(items, n - 1) + blank_points(items[n - 1])
    }
}

/// A sum capped at the largest `u64`.
pub open spec fn capped(x: int) -> int {
    if x > u64::MAX {
        u64::MAX as int
    } else {
        x
    }
}

/// A single-choice question: one option letter is the key.
#[derive(Clone)]
pub struct SingleSelect {
    pub question: String,
    pub options: Vec<String>,
    pub answer: String,
    pub user_input: Option<String>,
    pub score: u16,
}

/// A multiple-choice question: the key is a set of option letters.
#[derive(Clone)]
pub struct MultiSelect {
    pub question: String,
    pub options: Vec<String>,
    pub answer: String,
    pub user_input: Option<String>,
    pub score: u16,
}

/// A true-or-false question.
#[derive(Clone)]
pub struct Judge {
    pub question: String,
    pub answer: String,
    pub user_input: Option<String>,
    pub score: u16,
}

/// A fill-in question: an ordered list of independently graded blanks.
#[derive(Clone)]
pub struct FillIn {
    pub question: String,
    pub items: Vec<FillInItem>,
}

/// One blank of a fill-in question.
#[derive(Clone)]
pub struct FillInItem {
    pub answer: String,
    pub user_input: Option<String>,
    pub score: u16,
}

/// A question of any kind.
#[derive(Clone)]
pub enum QuestionEnum {
    SingleSelect(SingleSelect),
    MultiSelect(MultiSelect),
    Judge(Judge),
    FillIn(FillIn),
}

/// Points of a single-choice or true-or-false question with this response and key.
pub open spec fn exact_points(user_input: Option<String>, answer: Seq<char>, score: u16) -> int {
    if filled(user_input) && same_ignoring_case(user_input->0@, answer) {
        score as int
    } else {
        0
    }
}

/// Points of a multiple-choice question with this response and key.
pub open spec fn letter_points(user_input: Option<String>, answer: Seq<char>, score: u16) -> int {
    if filled(user_input) && same_letters(user_input->0@, answer) {
        score as int
    } else {
        0
    }
}

impl FillIn {
    /// Points earned by all blanks.
    pub open spec fn points(&self) -> int {
        blanks_points(self.items@, self.items@.len() as int)
    }

    pub open spec fn all_filled(&self) -> bool {
        forall|i: int| 0 <= i < self.items@.len() ==> #[trigger] filled(self.items@[i].user_input)
    }
}

impl QuestionEnum {
    /// The points this question earns as it stands.
    pub open spec fn points(&self) -> int {
        match self {
            QuestionEnum::SingleSelect(q) => exact_points(q.user_input, q.answer@, q.score),
            QuestionEnum::MultiSelect(q) => letter_points(q.user_input, q.answer@, q.score),
            QuestionEnum::Judge(q) => exact_points(q.user_input, q.answer@, q.score),
            QuestionEnum::FillIn(q) => q.points(),
        }
    }

    /// Every response slot of the question holds a value.
    pub open spec fn is_answered(&self) -> bool {
        match self {
            QuestionEnum::SingleSelect(q) => filled(q.user_input),
            QuestionEnum::MultiSelect(q) => filled(q.user_input),
            QuestionEnum::Judge(q) => filled(q.user_input),
            QuestionEnum::FillIn(q) => q.all_filled(),
        }
    }

    /// The response slots, in order.
    pub open spec fn slots(&self) -> Seq<Option<String>> {
        match self {
            QuestionEnum::SingleSelect(q) => seq![q.user_input],
            QuestionEnum::MultiSelect(q) => seq![q.user_input],
            QuestionEnum::Judge(q) => seq![q.user_input],
            QuestionEnum::FillIn(q) => q.items@.map_values(|it: FillInItem| it.user_input),
        }
    }

    /// Same kind and same content, lists compared by their elements.
    pub open spec fn same_as(&self, other: QuestionEnum) -> bool {
        match (*self, other) {
            (QuestionEnum::SingleSelect(a), QuestionEnum::SingleSelect(b)) => a.question == b.question
                && a.options@ == b.options@ && a.answer == b.answer && a.user_input == b.user_input
                && a.score == b.score,
            (QuestionEnum::MultiSelect(a), QuestionEnum::MultiSelect(b)) => a.question == b.question
                && a.options@ == b.options@ && a.answer == b.answer && a.user_input == b.user_input
                && a.score == b.score,
            (QuestionEnum::Judge(a), QuestionEnum::Judge(b)) => a == b,
            (QuestionEnum::FillIn(a), QuestionEnum::FillIn(b)) => a.question == b.question && a.items@ == b.items@,
            _ => false,
        }
    }

    /// The prompt text.
    pub open spec fn prompt(&self) -> Seq<char> {
        match self {
            QuestionEnum::SingleSelect(q) => q.question@,
            QuestionEnum::MultiSelect(q) => q.question@,
            QuestionEnum::Judge(q) => q.question@,
            QuestionEnum::FillIn(q) => q.question@,
        }
    }

    /// The kind of the question, as a category index.
    pub open spec fn kind(&self) -> nat {
        match self {
            QuestionEnum::SingleSelect(_) => 0,
            QuestionEnum::MultiSelect(_) => 1,
            QuestionEnum::Judge(_) => 2,
            QuestionEnum::FillIn(_) => 3,
        }
    }
}

/// The first input, or `slot` when there is none.
pub open spec fn first_or(inputs: Seq<Option<String>>, slot: Option<String>) -> Option<String> {
    if inputs.len() > 0 {
        inputs[0]
    } else {
        slot
    }
}

/// `new` is `old` with its slots replaced by `inputs`, position by position;
/// slots without a matching input keep their value.
pub open spec fn refilled_question(old: QuestionEnum, new: QuestionEnum, inputs: Seq<Option<String>>) -> bool {
    match (old, new) {
        (QuestionEnum::SingleSelect(o), QuestionEnum::SingleSelect(n)) =>
            n == SingleSelect { user_input: first_or(inputs, o.user_input), ..o },
        (QuestionEnum::MultiSelect(o), QuestionEnum::MultiSelect(n)) =>
            n == MultiSelect { user_input: first_or(inputs, o.user_input), ..o },
        (QuestionEnum::Judge(o), QuestionEnum::Judge(n)) =>
            n == Judge { user_input: first_or(inputs, o.user_input), ..o },
        (QuestionEnum::FillIn(o), QuestionEnum::FillIn(n)) =>
            n.question == o.question && n.items@ == refilled(o.items@, inputs),
        _ => false,
    }
}

/// The blanks with their responses replaced by `inputs`, zipped by position.
pub open spec fn refilled(items: Seq<FillInItem>, inputs: Seq<Option<String>>) -> Seq<FillInItem> {
    Seq::new(
        items.len(),
        |i: int|
            if i < inputs.len() {
                FillInItem { user_input: inputs[i], ..items[i] }
            } else {
                items[i]
            },
    )
}


/// The views of a sequence of strings.
pub open spec fn texts(v: Seq<String>) -> Seq<Seq<char>> {
    v.map_values(|x: String| x@)
}

/// Each character of `s`, lowercased on its own.
fn fold_chars(s: &str) -> (r: Vec<String>)
    ensures
        texts(r@) == folded(s@),
{
    let n = s.unicode_len();
    let mut r: Vec<String> = Vec::new();
    let mut i: usize = 0;
    while i < n
        invariant
            n == s@.len(),
            i <= n,
            r@.len() == i,
            forall|j: int| 0 <= j < i ==> #[trigger] r@[j]@ == lowercase_of(s@[j]),
        decreases n - i,
    {
        let c = s.get_char(i);
        r.push(lower_char(c));
        i += 1;
    }
    assert(texts(r@) =~= folded(s@));
    r
}

/// Whether two lists of strings are equal, string by string.
fn same_texts(a: &Vec<String>, b: &Vec<String>) -> (r: bool)
    ensures
        r == (texts(a@) == texts(b@)),
{
    if a.len() != b.len() {
        assert(texts(a@).len() != texts(b@).len());
        return false;
    }
    let mut i: usize = 0;
    while i < a.len()
        invariant
            a.len() == b.len(),
            i <= a.len(),
            forall|j: int| 0 <= j < i ==> #[trigger] a@[j]@ == b@[j]@,
        decreases a.len() - i,
    {
        if a[i] != b[i] {
            assert(texts(a@)[i as int] != texts(b@)[i as int]);
            return false;
        }
        i += 1;
    }
    assert(texts(a@) =~= texts(b@));
    true
}

/// Whether every string of `a` occurs in `b`.
fn all_within(a: &Vec<String>, b: &Vec<String>) -> (r: bool)
    ensures
        r == (forall|i: int| 0 <= i < a@.len() ==> #[trigger] texts(b@).contains(a@[i]@)),
{
    let mut i: usize = 0;
    while i < a.len()
        invariant
            i <= a.len(),
            forall|j: int| 0 <= j < i ==> #[trigger] texts(b@).contains(a@[j]@),
        decreases a.len() - i,
    {
        let mut found = false;
        let mut j: usize = 0;
        while j < b.len()
            invariant
                i < a.len(),
                j <= b.len(),
                found ==> texts(b@).contains(a@[i as int]@),
                !found ==> forall|m: int| 0 <= m < j ==> b@[m]@ != a@[i as int]@,
            decreases b.len() - j,
        {
            if b[j] == a[i] {
                assert(texts(b@)[j as int] == a@[i as int]@);
                found = true;
            }
            j += 1;
        }
        if !found {
            assert(!texts(b@).contains(a@[i as int]@));
            return false;
        }
        i += 1;
    }
    true
}

/// Whether `r` equals `k` under case-insensitive character comparison.
pub fn equals_ignoring_case(r: &str, k: &str) -> (b: bool)
    ensures
        b == same_ignoring_case(r@, k@),
{
    let fr = fold_chars(r);
    let fk = fold_chars(k);
    same_texts(&fr, &fk)
}

/// Whether `r` and `k` hold the same characters, ignoring case, order and repetition.
pub fn same_letter_set(r: &str, k: &str) -> (b: bool)
    ensures
        b == same_letters(r@, k@),
{
    let fr = fold_chars(r);
    let fk = fold_chars(k);
    let forward = all_within(&fr, &fk);
    let backward = all_within(&fk, &fr);
    proof {
        let a = folded(r@);
        let c = folded(k@);
        if forward && backward {
            assert forall|x: Seq<char>| a.to_set().contains(x) <==> c.to_set().contains(x) by {
                if a.contains(x) {
                    let i = choose|i: int| 0 <= i < a.len() && a[i] == x;
                    assert(texts(fr@)[i] == fr@[i]@);
                }
                if c.contains(x) {
                    let i = choose|i: int| 0 <= i < c.len() && c[i] == x;
                    assert(texts(fk@)[i] == fk@[i]@);
                }
            }
            assert(a.to_set() =~= c.to_set());
        } else if !forward {
            let i = choose|i: int| 0 <= i < fr@.len() && !#[trigger] texts(fk@).contains(fr@[i]@);
            assert(a[i] == fr@[i]@);
            assert(a.to_set().contains(a[i]));
            assert(!c.to_set().contains(a[i]));
        } else {
            let i = choose|i: int| 0 <= i < fk@.len() && !#[trigger] texts(fr@).contains(fk@[i]@);
            assert(c[i] == fk@[i]@);
            assert(c.to_set().contains(c[i]));
            assert(!a.to_set().contains(c[i]));
        }
    }
    forward && backward
}

/// Whether a response slot holds a value.
pub fn is_filled(slot: &Option<String>) -> (b: bool)
    ensures
        b == filled(*slot),
{
    match slot {
        Some(s) => s.unicode_len() > 0,
        None => false,
    }
}

/// Whether a blank's response is right for its key.
pub fn blank_is_right(r: &String, k: &String) -> (b: bool)
    ensures
        b == blank_right(r@, k@),
{
    *r == *k || (k.as_str().unicode_len() == 1 && equals_ignoring_case(r.as_str(), k.as_str()))
}

/// A copy of a response slot.
fn copy_slot(slot: &Option<String>) -> (r: Option<String>)
    ensures
        r == *slot,
{
    match slot {
        Some(s) => Some(s.clone()),
        None => None,
    }
}

/// Grading shared by all question kinds.
pub trait Question {
    /// The points the question earns as it stands.
    spec fn earned(&self) -> int;

    /// Every response slot holds a value.
    spec fn complete(&self) -> bool;

    /// The points earned, capped at the largest `u64`.
    fn cal_score(&self) -> (r: u64)
        ensures
            r == capped(self.earned()),
    ;

    /// Whether every response slot holds a value.
    fn answered(&self) -> (r: bool)
        ensures
            r == self.complete(),
    ;
}

impl Question for SingleSelect {
    open spec fn earned(&self) -> int {
        exact_points(self.user_input, self.answer@, self.score)
    }

    open spec fn complete(&self) -> bool {
        filled(self.user_input)
    }

    fn cal_score(&self) -> (r: u64) {
        match &self.user_input {
            Some(r) => if r.unicode_len() > 0 && equals_ignoring_case(r.as_str(), self.answer.as_str()) {
                self.score as u64
            } else {
                0
            },
            None => 0,
        }
    }

    fn answered(&self) -> (r: bool) {
        is_filled(&self.user_input)
    }
}

impl Question for MultiSelect {
    open spec fn earned(&self) -> int {
        letter_points(self.user_input, self.answer@, self.score)
    }

    open spec fn complete(&self) -> bool {
        filled(self.user_input)
    }

    fn cal_score(&self) -> (r: u64) {
        match &self.user_input {
            Some(r) => if r.unicode_len() > 0 && same_letter_set(r.as_str(), self.answer.as_str()) {
                self.score as u64
            } else {
                0
            },
            None => 0,
        }
    }

    fn answered(&self) -> (r: bool) {
        is_filled(&self.user_input)
    }
}

impl Question for Judge {
    open spec fn earned(&self) -> int {
        exact_points(self.user_input, self.answer@, self.score)
    }

    open spec fn complete(&self) -> bool {
        filled(self.user_input)
    }

    fn cal_score(&self) -> (r: u64) {
        match &self.user_input {
            Some(r) => if r.unicode_len() > 0 && equals_ignoring_case(r.as_str(), self.answer.as_str()) {
                self.score as u64
            } else {
                0
            },
            None => 0,
        }
    }

    fn answered(&self) -> (r: bool) {
        is_filled(&self.user_input)
    }
}

impl Question for FillIn {
    open spec fn earned(&self) -> int {
        self.points()
    }

    open spec fn complete(&self) -> bool {
        self.all_filled()
    }

    fn cal_score(&self) -> (r: u64) {
        let mut total: u64 = 0;
        let mut i: usize = 0;
        while i < self.items.len()
            invariant
                i <= self.items@.len(),
                total as int == capped(blanks_points(self.items@, i as int)),
            decreases self.items@.len() - i,
        {
            let item = &self.items[i];
            let earned: u64 = match &item.user_input {
                Some(r) => if r.unicode_len() > 0 && blank_is_right(r, &item.answer) {
                    item.score as u64
                } else {
                    0
                },
                None => 0,
            };
            assert(earned as int == blank_points(self.items@[i as int]));
            total = total.saturating_add(earned);
            i += 1;
        }
        total
    }

    fn answered(&self) -> (r: bool) {
        let mut i: usize = 0;
        while i < self.items.len()
            invariant
                i <= self.items@.len(),
                forall|j: int| 0 <= j < i ==> #[trigger] filled(self.items@[j].user_input),
            decreases self.items@.len() - i,
        {
            if !is_filled(&self.items[i].user_input) {
                return false;
            }
            i += 1;
        }
        true
    }
}

impl FillIn {
    /// The responses of the blanks, in order.
    pub fn user_input(&self) -> (r: Vec<Option<String>>)
        ensures
            r@ == self.items@.map_values(|it: FillInItem| it.user_input),
    {
        let mut r: Vec<Option<String>> = Vec::new();
        let mut i: usize = 0;
        while i < self.items.len()
            invariant
                i <= self.items@.len(),
                r@ == self.items@.subrange(0, i as int).map_values(|it: FillInItem| it.user_input),
            decreases self.items@.len() - i,
        {
            r.push(copy_slot(&self.items[i].user_input));
            proof {
                assert(self.items@.subrange(0, i + 1) =~= self.items@.subrange(0, i as int).push(self.items@[i as int]));
            }
            assert(r@ =~= self.items@.subrange(0, i + 1).map_values(|it: FillInItem| it.user_input));
            i += 1;
        }
        assert(self.items@.subrange(0, i as int) =~= self.items@);
        r
    }
}

/// Replaces the responses of the blanks by `inputs`, position by position.
fn fill_items(items: &mut Vec<FillInItem>, inputs: &Vec<Option<String>>)
    ensures
        final(items)@ == refilled(old(items)@, inputs@),
{
    let mut i: usize = 0;
    while i < items.len() && i < inputs.len()
        invariant
            items@.len() == old(items)@.len(),
            i <= items@.len(),
            forall|j: int| 0 <= j < items@.len() ==> #[trigger] items@[j] == if j < i {
                refilled(old(items)@, inputs@)[j]
            } else {
                old(items)@[j]
            },
        decreases items@.len() - i,
    {
        let item = FillInItem {
            answer: items[i].answer.clone(),
            user_input: copy_slot(&inputs[i]),
            score: items[i].score,
        };
        items.set(i, item);
        i += 1;
    }
    assert(items@ =~= refilled(old(items)@, inputs@));
}

impl QuestionEnum {
    /// The points this question earns, capped at the largest `u64`.
    pub fn cal_score(&self) -> (r: u64)
        ensures
            r == capped(self.points()),
    {
        match self {
            QuestionEnum::SingleSelect(q) => q.cal_score(),
            QuestionEnum::MultiSelect(q) => q.cal_score(),
            QuestionEnum::Judge(q) => q.cal_score(),
            QuestionEnum::FillIn(q) => q.cal_score(),
        }
    }

    /// The responses, one per slot.
    pub fn user_input(&self) -> (r: Vec<Option<String>>)
        ensures
            r@ == self.slots(),
    {
        match self {
            QuestionEnum::SingleSelect(q) => vec![copy_slot(&q.user_input)],
            QuestionEnum::MultiSelect(q) => vec![copy_slot(&q.user_input)],
            QuestionEnum::Judge(q) => vec![copy_slot(&q.user_input)],
            QuestionEnum::FillIn(q) => q.user_input(),
        }
    }

    /// Whether every response slot holds a value.
    pub fn answered(&self) -> (r: bool)
        ensures
            r == self.is_answered(),
    {
        match self {
            QuestionEnum::SingleSelect(q) => q.answered(),
            QuestionEnum::MultiSelect(q) => q.answered(),
            QuestionEnum::Judge(q) => q.answered(),
            QuestionEnum::FillIn(q) => q.answered(),
        }
    }

    /// Replaces the response slots by `user_input`, position by position.
    pub fn set_user_input(&mut self, user_input: Vec<Option<String>>)
        ensures
            refilled_question(*old(self), *final(self), user_input@),
    {
        match self {
            QuestionEnum::SingleSelect(q) => {
                if user_input.len() > 0 {
                    q.user_input = copy_slot(&user_input[0]);
                }
            },
            QuestionEnum::MultiSelect(q) => {
                if user_input.len() > 0 {
                    q.user_input = copy_slot(&user_input[0]);
                }
            },
            QuestionEnum::Judge(q) => {
                if user_input.len() > 0 {
                    q.user_input = copy_slot(&user_input[0]);
                }
            },
            QuestionEnum::FillIn(q) => {
                fill_items(&mut q.items, &user_input);
            },
        }
    }

    /// The category index of the question's kind.
    pub fn kind_index(&self) -> (r: usize)
        ensures
            r == self.kind(),
    {
        match self {
            QuestionEnum::SingleSelect(_) => 0,
            QuestionEnum::MultiSelect(_) => 1,
            QuestionEnum::Judge(_) => 2,
            QuestionEnum::FillIn(_) => 3,
        }
    }

    /// The number of response slots.
    pub fn input_size(&self) -> (r: usize)
        ensures
            r == self.slots().len(),
    {
        match self {
            QuestionEnum::SingleSelect(_) => 1,
            QuestionEnum::MultiSelect(_) => 1,
            QuestionEnum::Judge(_) => 1,
            QuestionEnum::FillIn(q) => q.items.len(),
        }
    }
}

/// A copy of a list of strings.
fn copy_texts(v: &Vec<String>) -> (r: Vec<String>)
    ensures
        r@ == v@,
{
    let mut r: Vec<String> = Vec::new();
    let mut i: usize = 0;
    while i < v.len()
        invariant
            i <= v@.len(),
            r@ == v@.subrange(0, i as int),
        decreases v@.len() - i,
    {
        r.push(v[i].clone());
        assert(r@ =~= v@.subrange(0, i + 1));
        i += 1;
    }
    assert(v@.subrange(0, i as int) =~= v@);
    r
}

/// A copy of a list of blanks.
fn copy_items(v: &Vec<FillInItem>) -> (r: Vec<FillInItem>)
    ensures
        r@ == v@,
{
    let mut r: Vec<FillInItem> = Vec::new();
    let mut i: usize = 0;
    while i < v.len()
        invariant
            i <= v@.len(),
            r@ == v@.subrange(0, i as int),
        decreases v@.len() - i,
    {
        let item = FillInItem {
            answer: v[i].answer.clone(),
            user_input: copy_slot(&v[i].user_input),
            score: v[i].score,
        };
        r.push(item);
        assert(r@ =~= v@.subrange(0, i + 1));
        i += 1;
    }
    assert(v@.subrange(0, i as int) =~= v@);
    r
}

impl QuestionEnum {
    /// A copy of the question, with the same content.
    pub fn duplicate(&self) -> (r: QuestionEnum)
        ensures
            r.same_as(*self),
    {
        match self {
            QuestionEnum::SingleSelect(q) => QuestionEnum::SingleSelect(SingleSelect {
                question: q.question.clone(),
                options: copy_texts(&q.options),
                answer: q.answer.clone(),
                user_input: copy_slot(&q.user_input),
                score: q.score,
            }),
            QuestionEnum::MultiSelect(q) => QuestionEnum::MultiSelect(MultiSelect {
                question: q.question.clone(),
                options: copy_texts(&q.options),
                answer: q.answer.clone(),
                user_input: copy_slot(&q.user_input),
                score: q.score,
            }),
            QuestionEnum::Judge(q) => QuestionEnum::Judge(Judge {
                question: q.question.clone(),
                answer: q.answer.clone(),
                user_input: copy_slot(&q.user_input),
                score: q.score,
            }),
            QuestionEnum::FillIn(q) => QuestionEnum::FillIn(FillIn {
                question: q.question.clone(),
                items: copy_items(&q.items),
            }),
        }
    }

    /// The prompt text.
    pub fn prompt_text(&self) -> (r: &String)
        ensures
            r@ == self.prompt(),
    {
        match self {
            QuestionEnum::SingleSelect(q) => &q.question,
            QuestionEnum::MultiSelect(q) => &q.question,
            QuestionEnum::Judge(q) => &q.question,
            QuestionEnum::FillIn(q) => &q.question,
        }
    }

    /// Whether `other` is the same question: same kind and same prompt.
    pub fn same_question(&self, other: &QuestionEnum) -> (r: bool)
        ensures
            r == (self.kind() == other.kind() && self.prompt() == other.prompt()),
    {
        self.kind_index() == other.kind_index() && *self.prompt_text() == *other.prompt_text()
    }
}

/// A blank's points when graded by plain equality of response and key.
pub open spec fn literal_blank_points(item: FillInItem) -> int {
    if item.user_input is Some && item.user_input->0@ == item.answer@ {
        item.score as int
    } else {
        0
    }
}

/// Plain-equality points of the first `n` blanks.
pub open spec fn literal_points(items: Seq<FillInItem>, n: int) -> int
    decreases n,
{
    if n <= 0 {
        0
    } else {
        literal_points(items, n - 1) + literal_blank_points(items[n - 1])
    }
}

/// The blanks on which plain equality and the grading rule part: an empty
/// response to an empty key (unanswered, so 0), and a one-character key answered
/// in the other case (accepted).
pub open spec fn grading_differs(item: FillInItem) -> bool {
    &&& item.user_input is Some
    &&& item.score > 0
    &&& {
        let r = item.user_input->0@;
        let k = item.answer@;
        (r == k && r.len() == 0) || (r != k && k.len() == 1 && same_ignoring_case(r, k))
    }
}

/// A fill-in question scores the sum, over its blanks, of the blank's points when
/// its response equals its key and 0 otherwise (for blanks on which the
/// empty-response and one-letter rules do not apply).
pub proof fn lemma_fill_in_sum(f: FillIn)
    requires
        forall|i: int| 0 <= i < f.items@.len() ==> !grading_differs(#[trigger] f.items@[i]),
    ensures
        f.points() == literal_points(f.items@, f.items@.len() as int),
{
    lemma_fill_in_prefix(f.items@, f.items@.len() as int);
}

proof fn lemma_fill_in_prefix(items: Seq<FillInItem>, n: int)
    requires
        n <= items.len(),
        forall|i: int| 0 <= i < items.len() ==> !grading_differs(#[trigger] items[i]),
    ensures
        blanks_points(items, n) == literal_points(items, n),
    decreases n,
{
    if n > 0 {
        lemma_fill_in_prefix(items, n - 1);
        assert(!grading_differs(items[n - 1]));
    }
}

/// Setting responses never makes an answered question unanswered unless a slot
/// is cleared: if every new value is filled, the question stays answered.
pub proof fn lemma_answered_monotonic(q: QuestionEnum, updated: QuestionEnum, inputs: Seq<Option<String>>)
    requires
        q.is_answered(),
        refilled_question(q, updated, inputs),
        forall|i: int| 0 <= i < inputs.len() ==> filled(#[trigger] inputs[i]),
    ensures
        updated.is_answered(),
{
    if let QuestionEnum::FillIn(f) = updated {
        if let QuestionEnum::FillIn(g) = q {
            assert forall|i: int| 0 <= i < f.items@.len() implies #[trigger] filled(f.items@[i].user_input) by {
                assert(f.items@[i] == refilled(g.items@, inputs)[i]);
                assert(filled(g.items@[i].user_input));
            }
        }
    }
}

/// Two questions with the same content grade alike.
pub proof fn lemma_same_content_grades_alike(a: QuestionEnum, b: QuestionEnum)
    requires
        a.same_as(b),
    ensures
        a.points() == b.points(),
        a.is_answered() == b.is_answered(),
        a.kind() == b.kind(),
        a.prompt() == b.prompt(),
{
}

} // verus!
