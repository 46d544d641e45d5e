use rapidl::question::{MarkScheme, Question, QuestionHeader, QuestionType};
use rapidl::questionstacker::Stacker;

fn asked(text: &str) -> Question {
    Question::from(
        QuestionHeader::new(text, text),
        format!("{text}?"),
        format!("{text}?"),
        MarkScheme::from(format!("{text}!"), format!("{text}!")),
    )
}

fn heading(text: &str) -> Question {
    Question::new(QuestionHeader::new(text, &format!("\\({text}\\)")))
}

/// A question tree as text: `h[...]` for a group, `h:q` for a question.
fn show(question: &QuestionType) -> String {
    match question {
        QuestionType::Single(q) => format!("{}:{}", q.header.raw_text, q.raw_text),
        QuestionType::Grouped(header, parts) => {
            let inner: Vec<String> = parts.iter().map(show).collect();
            format!("{}[{}]", header.raw_text, inner.join(" "))
        }
    }
}

fn show_all(questions: &[QuestionType]) -> String {
    questions.iter().map(show).collect::<Vec<String>>().join(" ")
}

#[test]
fn parts_of_a_question() {
    let header = QuestionHeader::new("raw", "latex");
    assert_eq!((header.raw_text.as_str(), header.latex_text.as_str()), ("raw", "latex"));
    let empty = Question::new(header);
    assert!(empty.is_empty());
    assert!(empty.mark_scheme.is_empty());
    assert_eq!(empty.header.latex_text, "latex");
    let scheme = MarkScheme::from("r".to_string(), "l".to_string());
    assert!(!scheme.is_empty());
    assert!(MarkScheme::new().is_empty());
    assert!(!MarkScheme::from(String::new(), "l".to_string()).is_empty());
    let marked = Question::from_header_and_scheme(QuestionHeader::new("h", "h"), scheme);
    assert!(!marked.is_empty());
    assert_eq!((marked.raw_text.as_str(), marked.latex_text.as_str()), ("", ""));
    assert_eq!(marked.mark_scheme.raw_text, "r");
    let full = asked("x");
    assert!(!full.is_empty());
    assert_eq!((full.raw_text.as_str(), full.mark_scheme.latex_text.as_str()), ("x?", "x!"));
}

#[test]
fn a_heading_becomes_an_empty_group() {
    let group = QuestionType::Single(heading("h")).into_grouped();
    assert_eq!(show(&group), "h[]");
}

#[test]
fn a_question_becomes_the_one_part_of_its_group() {
    let group = QuestionType::Single(asked("x")).into_grouped();
    assert_eq!(show(&group), "x[:x?]");
    match group {
        QuestionType::Grouped(header, parts) => {
            assert_eq!(header.latex_text, "x");
            match &parts[0] {
                QuestionType::Single(part) => {
                    assert_eq!(part.header.latex_text, "");
                    assert_eq!(part.latex_text, "x?");
                    assert_eq!(part.mark_scheme.raw_text, "x!");
                }
                QuestionType::Grouped(_, _) => panic!("a part of its own"),
            }
        }
        QuestionType::Single(_) => panic!("still single"),
    }
}

#[test]
fn root_questions_and_their_parts() {
    let mut stack = Stacker::new();
    stack.next_root_question(heading("a"));
    stack.next_root_sub_question(asked("a1"));
    stack.next_root_sub_question(asked("a2"));
    stack.next_root_question(asked("b"));
    stack.next_root_sub_question(asked("b1"));
    assert_eq!(
        show_all(&stack.consume_get_questions()),
        "a[a1:a1? a2:a2?] b[:b? b1:b1?]"
    );
    assert!(Stacker::new().consume_get_questions().is_empty());
}

/// The stack after the first `upto` of six parts were added at the deepest
/// level.
fn deep(upto: usize) -> String {
    let parts =
        [heading("a"), heading("b"), asked("b1"), asked("b2"), asked("b2x"), asked("b2y")];
    let mut stack = Stacker::new();
    for part in parts.into_iter().take(upto) {
        stack.next_depth_sub_question(part);
    }
    show_all(&stack.consume_get_questions())
}

#[test]
fn parts_at_the_deepest_level() {
    // With at most one root question the part becomes a root question.
    assert_eq!(deep(1), "a:");
    assert_eq!(deep(2), "a: b:");
    // With two, it goes under the last one.
    assert_eq!(deep(3), "a: b[b1:b1?]");
    assert_eq!(deep(4), "a: b[b1:b1? b2:b2?]");
    // And under the last of those, once there are two.
    assert_eq!(deep(5), "a: b[b1:b1? b2[:b2? b2x:b2x?]]");
    // A group of two parts hands the part down again.
    assert_eq!(deep(6), "a: b[b1:b1? b2[:b2? b2x[:b2x? b2y:b2y?]]]");
}
