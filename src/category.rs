//! The fixed, ordered set of question categories.
use vstd::prelude::*;

verus! {

/// Number of categories.
pub const CATEGORY_COUNT: usize = 4;

/// A question category; also a tab of the session view.
#[derive(Clone, Copy, Debug, PartialEq, Eq, Structural, Hash)]
pub enum QuestionType {
    SingleSelect,
    MultiSelect,
    Judge,
    FillIn,
}

impl QuestionType {
    /// Position of the category in the fixed order.
    pub open spec fn ord(self) -> nat {
        match self {
            QuestionType::SingleSelect => 0,
            QuestionType::MultiSelect => 1,
            QuestionType::Judge => 2,
            QuestionType::FillIn => 3,
        }
    }

    /// The category at position `i` of the fixed order.
    pub open spec fn at(i: nat) -> QuestionType {
        if i == 0 {
            QuestionType::SingleSelect
        } else if i == 1 {
            QuestionType::MultiSelect
        } else if i == 2 {
            QuestionType::Judge
        } else {
            QuestionType::FillIn
        }
    }

    /// The previous category, or this one at the start of the order.
    pub open spec fn before(self) -> QuestionType {
        if self.ord() == 0 {
            self
        } else {
            QuestionType::at((self.ord() - 1) as nat)
        }
    }

    /// The next category, or this one at the end of the order.
    pub open spec fn after(self) -> QuestionType {
        if self.ord() + 1 >= CATEGORY_COUNT {
            self
        } else {
            QuestionType::at(self.ord() + 1)
        }
    }

    /// Position of the category in the fixed order.
    pub fn index(self) -> (r: usize)
        ensures
            r == self.ord(),
            r < CATEGORY_COUNT,
    {
        match self {
            QuestionType::SingleSelect => 0,
            QuestionType::MultiSelect => 1,
            QuestionType::Judge => 2,
            QuestionType::FillIn => 3,
        }
    }

    /// The category at position `i`, if there is one.
    pub fn from_index(i: usize) -> (r: Option<QuestionType>)
        ensures
            i < CATEGORY_COUNT ==> r == Some(QuestionType::at(i as nat)) && r->0.ord() == i,
            i >= CATEGORY_COUNT ==> r is None,
    {
        if i == 0 {
            Some(QuestionType::SingleSelect)
        } else if i == 1 {
            Some(QuestionType::MultiSelect)
        } else if i == 2 {
            Some(QuestionType::Judge)
        } else if i == 3 {
            Some(QuestionType::FillIn)
        } else {
            None
        }
    }

    /// The previous category; the first category stays where it is.
    pub fn previous(self) -> (r: QuestionType)
        ensures
            r == self.before(),
    {
        let i = self.index();
        if i == 0 {
            self
        } else {
            match QuestionType::from_index(i - 1) {
                Some(t) => t,
                None => self,
            }
        }
    }

    /// The next category; the last category stays where it is.
    pub fn next(self) -> (r: QuestionType)
        ensures
            r == self.after(),
    {
        match QuestionType::from_index(self.index() + 1) {
            Some(t) => t,
            None => self,
        }
    }

    /// The tab title of the category.
    pub fn title(self) -> (r: String)
        ensures
            r@ == self.title_text(),
    {
        match self {
            QuestionType::SingleSelect => "单选题".to_string(),
            QuestionType::MultiSelect => "多选题".to_string(),
            QuestionType::Judge => "判断题".to_string(),
            QuestionType::FillIn => "填空题".to_string(),
        }
    }

    pub open spec fn title_text(self) -> Seq<char> {
        match self {
            QuestionType::SingleSelect => "单选题"@,
            QuestionType::MultiSelect => "多选题"@,
            QuestionType::Judge => "判断题"@,
            QuestionType::FillIn => "填空题"@,
        }
    }
}

/// Moving between categories is clamped and never wraps: from the first
/// category "previous" stays, from the last "next" stays, and otherwise each
/// moves exactly one place.
pub proof fn lemma_navigation_clamped(t: QuestionType)
    ensures
        t.ord() == 0 ==> t.before() == t,
        t.ord() + 1 == CATEGORY_COUNT ==> t.after() == t,
        t.ord() > 0 ==> t.before().ord() + 1 == t.ord(),
        t.ord() + 1 < CATEGORY_COUNT ==> t.after().ord() == t.ord() + 1,
        t.before().ord() <= t.ord() <= t.after().ord(),
{
}

} // verus!
