//! Questions: a single question with its mark scheme, or a heading with the
//! questions that stand under it.

use vstd::prelude::*;
use vstd::string::*;

verus! {

/// A question, or a group of questions under a heading.
#[derive(Debug)]
pub enum QuestionType {
    Single(Question),
    Grouped(QuestionHeader, Vec<QuestionType>),
}

/// The heading of a question, as plain text and as LaTeX.
#[derive(Debug)]
pub struct QuestionHeader {
    pub raw_text: String,
    pub latex_text: String,
}

/// A question: its heading, what it asks, and how it is marked.
#[derive(Debug)]
pub struct Question {
    pub header: QuestionHeader,
    pub raw_text: String,
    pub latex_text: String,
    pub mark_scheme: MarkScheme,
}

/// How a question is marked, as plain text and as LaTeX.
#[derive(Debug)]
pub struct MarkScheme {
    pub raw_text: String,
    pub latex_text: String,
}

/// A heading as a value of the model.
pub struct HeaderView {
    pub raw_text: Seq<char>,
    pub latex_text: Seq<char>,
}

/// A mark scheme as a value of the model.
pub struct SchemeView {
    pub raw_text: Seq<char>,
    pub latex_text: Seq<char>,
}

/// A question as a value of the model.
pub struct QuestionView {
    pub header: HeaderView,
    pub raw_text: Seq<char>,
    pub latex_text: Seq<char>,
    pub mark_scheme: SchemeView,
}

/// A question or a group of questions as a value of the model.
pub enum TypeView {
    Single(QuestionView),
    Grouped(HeaderView, Seq<TypeView>),
}

impl View for QuestionHeader {
    type V = HeaderView;

    open spec fn view(&self) -> HeaderView {
        HeaderView { raw_text: self.raw_text@, latex_text: self.latex_text@ }
    }
}

impl View for MarkScheme {
    type V = SchemeView;

    open spec fn view(&self) -> SchemeView {
        SchemeView { raw_text: self.raw_text@, latex_text: self.latex_text@ }
    }
}

impl View for Question {
    type V = QuestionView;

    open spec fn view(&self) -> QuestionView {
        QuestionView {
            header: self.header@,
            raw_text: self.raw_text@,
            latex_text: self.latex_text@,
            mark_scheme: self.mark_scheme@,
        }
    }
}

/// A question or a group as a value of the model.
pub open spec fn type_view(question: QuestionType) -> TypeView
    decreases question, 0int,
{
    match question {
        QuestionType::Single(q) => TypeView::Single(q@),
        QuestionType::Grouped(header, questions) => TypeView::Grouped(
            header@,
            list_view(questions@),
        ),
    }
}

/// The questions of a list as values of the model.
pub open spec fn list_view(questions: Seq<QuestionType>) -> Seq<TypeView>
    decreases questions, 1int,
{
    if questions.len() == 0 {
        Seq::empty()
    } else {
        list_view(questions.drop_last()).push(type_view(questions.last()))
    }
}

impl View for QuestionType {
    type V = TypeView;

    open spec fn view(&self) -> TypeView {
        type_view(*self)
    }
}

/// The view of a group is the group of the views.
pub proof fn lemma_view_grouped(header: QuestionHeader, parts: Vec<QuestionType>)
    ensures
        QuestionType::Grouped(header, parts)@ == TypeView::Grouped(header@, list_view(parts@)),
{
}

/// The view of a list that got one more question is the view of the list
/// with that question's view behind it.
pub proof fn lemma_view_push(list: Seq<QuestionType>, question: QuestionType)
    ensures
        list_view(list.push(question)) == list_view(list).push(question@),
{
    assert(list.push(question).drop_last() =~= list);
}

/// The view of a list has the list's length, and the view of its last
/// question last.
pub proof fn lemma_view_len(list: Seq<QuestionType>)
    ensures
        list_view(list).len() == list.len(),
        list.len() > 0 ==> list_view(list).last() == list.last()@ && list_view(
            list.drop_last(),
        ) == list_view(list).drop_last(),
    decreases list.len(),
{
    if list.len() > 0 {
        lemma_view_len(list.drop_last());
        assert(list_view(list).drop_last() =~= list_view(list.drop_last()));
    }
}

/// A heading that says nothing.
pub open spec fn blank_header() -> HeaderView {
    HeaderView { raw_text: Seq::empty(), latex_text: Seq::empty() }
}

/// Whether a question asks nothing and marks nothing.
pub open spec fn blank_question(question: QuestionView) -> bool {
    question.raw_text.len() == 0 && question.latex_text.len() == 0
        && question.mark_scheme.raw_text.len() == 0 && question.mark_scheme.latex_text.len() == 0
}

/// A question as a group under its heading: a question that is a heading
/// only leaves an empty group; any other becomes the group's one part, with
/// a blank heading of its own. A group stays as it is.
pub open spec fn grouped(question: TypeView) -> TypeView {
    match question {
        TypeView::Single(q) => if blank_question(q) {
            TypeView::Grouped(q.header, Seq::empty())
        } else {
            TypeView::Grouped(
                q.header,
                seq![
                    TypeView::Single(
                        QuestionView {
                            header: blank_header(),
                            raw_text: q.raw_text,
                            latex_text: q.latex_text,
                            mark_scheme: q.mark_scheme,
                        },
                    ),
                ],
            )
        },
        TypeView::Grouped(header, parts) => TypeView::Grouped(header, parts),
    }
}

impl QuestionHeader {
    /// A heading of the two texts.
    pub fn new(raw_text: &str, latex_text: &str) -> (r: Self)
        ensures
            r.raw_text@ == raw_text@,
            r.latex_text@ == latex_text@,
    {
        Self { raw_text: String::from_str(raw_text), latex_text: String::from_str(latex_text) }
    }

    /// Whether the heading says nothing.
    pub open spec fn blank(&self) -> bool {
        self.raw_text@.len() == 0 && self.latex_text@.len() == 0
    }
}

impl MarkScheme {
    /// Whether the scheme says nothing.
    pub open spec fn blank(&self) -> bool {
        self.raw_text@.len() == 0 && self.latex_text@.len() == 0
    }

    /// A mark scheme that says nothing.
    pub fn new() -> (r: Self)
        ensures
            r.blank(),
    {
        Self { raw_text: String::new(), latex_text: String::new() }
    }

    /// A mark scheme of the two texts.
    pub fn from(raw_text: String, latex_text: String) -> (r: Self)
        ensures
            r.raw_text == raw_text,
            r.latex_text == latex_text,
    {
        Self { raw_text, latex_text }
    }

    /// Whether the scheme says nothing.
    pub fn is_empty(&self) -> (r: bool)
        ensures
            r == self.blank(),
    {
        self.raw_text.as_str().is_empty() && self.latex_text.as_str().is_empty()
    }
}

impl Question {
    /// Whether the question asks nothing and marks nothing: it is a heading
    /// only.
    pub open spec fn blank(&self) -> bool {
        self.raw_text@.len() == 0 && self.latex_text@.len() == 0 && self.mark_scheme.blank()
    }

    /// A question that is a heading only.
    pub fn new(header: QuestionHeader) -> (r: Self)
        ensures
            r.header == header,
            r.blank(),
    {
        Self {
            header,
            raw_text: String::new(),
            latex_text: String::new(),
            mark_scheme: MarkScheme::new(),
        }
    }

    /// A question of all its parts.
    pub fn from(
        header: QuestionHeader,
        raw_text: String,
        latex_text: String,
        mark_scheme: MarkScheme,
    ) -> (r: Self)
        ensures
            r.header == header,
            r.raw_text == raw_text,
            r.latex_text == latex_text,
            r.mark_scheme == mark_scheme,
    {
        Self { header, raw_text, latex_text, mark_scheme }
    }

    /// A question whose heading is all that it asks, with its mark scheme.
    pub fn from_header_and_scheme(header: QuestionHeader, mark_scheme: MarkScheme) -> (r: Self)
        ensures
            r.header == header,
            r.mark_scheme == mark_scheme,
            r.raw_text@.len() == 0,
            r.latex_text@.len() == 0,
    {
        Self { header, mark_scheme, raw_text: String::new(), latex_text: String::new() }
    }

    /// Whether the question is a heading only.
    pub fn is_empty(&self) -> (r: bool)
        ensures
            r == self.blank(),
    {
        self.raw_text.as_str().is_empty() && self.latex_text.as_str().is_empty()
            && self.mark_scheme.is_empty()
    }
}

impl QuestionType {
    /// Turns a single question into a group under the question's heading.
    /// Only a single question can be turned.
    pub fn into_grouped(self) -> (r: Self)
        requires
            self is Single,
        ensures
            r is Grouped,
            r@ == grouped(self@),
    {
        match self {
            QuestionType::Single(question) => {
                if question.is_empty() {
                    let empty: Vec<QuestionType> = Vec::new();
                    let out = Self::Grouped(question.header, empty);
                    assert(out@ == grouped(self@)) by {
                        assert(list_view(empty@) =~= Seq::<TypeView>::empty());
                    }
                    return out;
                }
                let Question { header, raw_text, latex_text, mark_scheme } = question;
                proof {
                    reveal_strlit("");
                }
                let blank = QuestionHeader::new("", "");
                assert(blank@.raw_text =~= Seq::<char>::empty());
                assert(blank@.latex_text =~= Seq::<char>::empty());
                let part = Question::from(blank, raw_text, latex_text, mark_scheme);
                let ghost part_view = part@;
                let mut parts: Vec<QuestionType> = Vec::new();
                let ghost none = parts@;
                parts.push(QuestionType::Single(part));
                let out = Self::Grouped(header, parts);
                assert(out@ == grouped(self@)) by {
                    assert(part_view.header == blank_header());
                    lemma_view_push(none, QuestionType::Single(part));
                    assert(list_view(none) =~= Seq::<TypeView>::empty());
                    assert(list_view(parts@) =~= seq![TypeView::Single(part_view)]);
                }
                out
            },
            QuestionType::Grouped(header, questions) => Self::Grouped(header, questions),
        }
    }
}

} // verus!
