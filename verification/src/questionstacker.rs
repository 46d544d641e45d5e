//! A stack of questions that a generator fills: root questions, parts of
//! the last root question, and parts at the deepest open level.

use vstd::prelude::*;
use crate::question::{
    grouped, lemma_view_grouped, lemma_view_len, lemma_view_push, list_view, Question,
    QuestionType, TypeView,
};

verus! {

/// The questions of a paper in the making.
#[derive(Debug)]
pub struct Stacker {
    questions: Vec<QuestionType>,
}

/// The list with a part added to its last question, which becomes a group
/// if it is none yet.
pub open spec fn sub_pushed(list: Seq<TypeView>, part: TypeView) -> Seq<TypeView>
    recommends
        list.len() > 0,
{
    match grouped(list.last()) {
        TypeView::Grouped(header, parts) => list.update(
            list.len() - 1,
            TypeView::Grouped(header, parts.push(part)),
        ),
        other => list,
    }
}

/// The list with a part added at its deepest open level: a list of at most
/// one question takes the part itself; a longer one hands it down to its
/// last question, which becomes a group if it is none yet.
pub open spec fn deep_pushed(list: Seq<TypeView>, part: TypeView) -> Seq<TypeView>
    decreases list,
{
    if list.len() <= 1 {
        list.push(part)
    } else {
        match list.last() {
            TypeView::Grouped(header, parts) => list.update(
                list.len() - 1,
                TypeView::Grouped(header, deep_pushed(parts, part)),
            ),
            TypeView::Single(_) => sub_pushed(list, part),
        }
    }
}

impl View for Stacker {
    type V = Seq<TypeView>;

    closed spec fn view(&self) -> Seq<TypeView> {
        list_view(self.questions@)
    }
}

/// Adds a part to the last question of a list.
fn push_sub(list: Vec<QuestionType>, part: QuestionType) -> (r: Vec<QuestionType>)
    requires
        list@.len() > 0,
    ensures
        list_view(r@) == sub_pushed(list_view(list@), part@),
{
    let mut list = list;
    let ghost before = list@;
    let last = list.pop().unwrap();
    proof {
        lemma_view_len(before);
    }
    let ghost rest = list@;
    let group = match last {
        QuestionType::Single(question) => QuestionType::Single(question).into_grouped(),
        QuestionType::Grouped(header, parts) => QuestionType::Grouped(header, parts),
    };
    assert(group@ == grouped(last@));
    match group {
        QuestionType::Grouped(header, parts) => {
            let mut parts = parts;
            let ghost parts_before = parts@;
            proof {
                lemma_view_grouped(header, parts);
                lemma_view_push(parts_before, part);
            }
            parts.push(part);
            let out = QuestionType::Grouped(header, parts);
            proof {
                lemma_view_grouped(header, parts);
                lemma_view_push(rest, out);
            }
            list.push(out);
            assert(list_view(list@) =~= sub_pushed(list_view(before), part@));
        },
        QuestionType::Single(question) => {
            // A question that was turned into a group is a group.
            list.push(QuestionType::Single(question));
        },
    }
    list
}

/// Adds a part at the deepest open level of a list.
fn push_deep(list: Vec<QuestionType>, part: QuestionType) -> (r: Vec<QuestionType>)
    ensures
        list_view(r@) == deep_pushed(list_view(list@), part@),
    decreases list,
{
    let mut list = list;
    if list.len() <= 1 {
        proof {
            lemma_view_len(list@);
            lemma_view_push(list@, part);
        }
        list.push(part);
        return list;
    }
    let ghost before = list@;
    proof {
        lemma_view_len(before);
    }
    let is_group = match &list[list.len() - 1] {
        QuestionType::Grouped(_, _) => true,
        QuestionType::Single(_) => false,
    };
    if !is_group {
        return push_sub(list, part);
    }
    let last = list.pop().unwrap();
    let ghost rest = list@;
    match last {
        QuestionType::Grouped(header, parts) => {
            proof {
                lemma_view_grouped(header, parts);
            }
            let deeper = push_deep(parts, part);
            let out = QuestionType::Grouped(header, deeper);
            proof {
                lemma_view_grouped(header, deeper);
                lemma_view_push(rest, out);
            }
            list.push(out);
            assert(list_view(list@) =~= deep_pushed(list_view(before), part@));
        },
        QuestionType::Single(question) => {
            list.push(QuestionType::Single(question));
        },
    }
    list
}

impl Stacker {
    /// A stack without questions.
    pub fn new() -> (r: Self)
        ensures
            r@ == Seq::<TypeView>::empty(),
    {
        let r = Self { questions: Vec::new() };
        assert(r@ =~= Seq::<TypeView>::empty());
        r
    }

    /// Puts a new root question on the stack.
    pub fn next_root_question(&mut self, question: Question)
        ensures
            final(self)@ == old(self)@.push(TypeView::Single(question@)),
    {
        let question = QuestionType::Single(question);
        proof {
            lemma_view_push(self.questions@, question);
        }
        self.questions.push(question);
    }

    /// Adds a part to the last root question, which becomes a group if it is
    /// none yet. There has to be a root question.
    pub fn next_root_sub_question(&mut self, question: Question)
        requires
            old(self)@.len() > 0,
        ensures
            final(self)@ == sub_pushed(old(self)@, TypeView::Single(question@)),
    {
        let mut taken: Vec<QuestionType> = Vec::new();
        std::mem::swap(&mut self.questions, &mut taken);
        self.questions = push_sub(taken, QuestionType::Single(question));
    }

    /// Adds a part at the deepest open level of the stack.
    pub fn next_depth_sub_question(&mut self, question: Question)
        ensures
            final(self)@ == deep_pushed(old(self)@, TypeView::Single(question@)),
    {
        let mut taken: Vec<QuestionType> = Vec::new();
        std::mem::swap(&mut self.questions, &mut taken);
        self.questions = push_deep(taken, QuestionType::Single(question));
    }

    /// Hands out the questions and ends the stack.
    pub fn consume_get_questions(self) -> (r: Vec<QuestionType>)
        ensures
            list_view(r@) == self@,
    {
        self.questions
    }
}

} // verus!
