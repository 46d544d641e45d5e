//! Reading a choice of options back from the text that a job's row stores:
//! names separated by commas, with white space around a name ignored.

use vstd::prelude::*;
use vstd::string::*;
use crate::options::{
    id_of_name, option_of_name, option_parse_error, GenerateId, GenerateOption,
};

verus! {

/// Whether a character is white space, as Unicode's `White_Space` has it.
pub open spec fn is_space(c: char) -> bool {
    let code = c as u32;
    (0x09 <= code <= 0x0D) || code == 0x20 || code == 0x85 || code == 0xA0 || code == 0x1680 || (
    0x2000 <= code <= 0x200A) || code == 0x2028 || code == 0x2029 || code == 0x202F || code
        == 0x205F || code == 0x3000
}

/// The number of white-space characters at the front of a text.
pub open spec fn leading_spaces(s: Seq<char>) -> int
    decreases s.len(),
{
    if s.len() > 0 && is_space(s[0]) {
        1 + leading_spaces(s.drop_first())
    } else {
        0
    }
}

/// The number of white-space characters at the end of a text.
pub open spec fn trailing_spaces(s: Seq<char>) -> int
    decreases s.len(),
{
    if s.len() > 0 && is_space(s.last()) {
        1 + trailing_spaces(s.drop_last())
    } else {
        0
    }
}

/// The text without the white space at its front and at its end.
pub open spec fn trimmed(s: Seq<char>) -> Seq<char> {
    let front = leading_spaces(s);
    let rest = s.skip(front);
    rest.take(rest.len() - trailing_spaces(rest))
}

/// The place of the first comma of a text; its length where it has none.
pub open spec fn first_comma(s: Seq<char>) -> int
    decreases s.len(),
{
    if s.len() == 0 || s[0] == ',' {
        0
    } else {
        1 + first_comma(s.drop_first())
    }
}

/// The parts of a text between its commas. A text without a comma is one
/// part, be it empty.
pub open spec fn split_commas(s: Seq<char>) -> Seq<Seq<char>>
    decreases s.len(),
{
    let k = first_comma(s);
    if 0 <= k < s.len() {
        seq![s.take(k)] + split_commas(s.skip(k + 1))
    } else {
        seq![s]
    }
}

/// The options that the parts name, or the message about the first part
/// that names none.
pub open spec fn parse_all(parts: Seq<Seq<char>>) -> Result<Seq<GenerateOption>, Seq<char>>
    decreases parts.len(),
{
    if parts.len() == 0 {
        Ok(Seq::empty())
    } else {
        match option_of_name(trimmed(parts[0])) {
            None => Err(option_parse_error(trimmed(parts[0]))),
            Some(option) => match parse_all(parts.drop_first()) {
                Ok(rest) => Ok(seq![option] + rest),
                Err(message) => Err(message),
            },
        }
    }
}

/// The options that a stored text names.
pub open spec fn options_of_text(s: Seq<char>) -> Result<Seq<GenerateOption>, Seq<char>> {
    parse_all(split_commas(s))
}

/// A result with options put in front of it.
pub open spec fn after_options(
    front: Seq<GenerateOption>,
    rest: Result<Seq<GenerateOption>, Seq<char>>,
) -> Result<Seq<GenerateOption>, Seq<char>> {
    match rest {
        Ok(options) => Ok(front + options),
        Err(message) => Err(message),
    }
}

/// Whether a character is white space.
pub fn is_whitespace(c: char) -> (r: bool)
    ensures
        r == is_space(c),
{
    let code = c as u32;
    (0x09 <= code && code <= 0x0D) || code == 0x20 || code == 0x85 || code == 0xA0 || code
        == 0x1680 || (0x2000 <= code && code <= 0x200A) || code == 0x2028 || code == 0x2029
        || code == 0x202F || code == 0x205F || code == 0x3000
}

/// Leading white space, counted from a place on.
proof fn lemma_leading_step(s: Seq<char>, at: int)
    requires
        0 <= at <= s.len(),
        forall|i: int| 0 <= i < at ==> is_space(s[i]),
    ensures
        leading_spaces(s) == at + leading_spaces(s.skip(at)),
    decreases at,
{
    if at == 0 {
        assert(s.skip(0) =~= s);
    } else {
        assert(is_space(s[0]));
        let rest = s.drop_first();
        assert forall|i: int| 0 <= i < at - 1 implies is_space(rest[i]) by {
            assert(rest[i] == s[i + 1]);
        }
        lemma_leading_step(rest, at - 1);
        assert(rest.skip(at - 1) =~= s.skip(at));
    }
}

/// Trailing white space, counted up to a place.
proof fn lemma_trailing_step(s: Seq<char>, upto: int)
    requires
        0 <= upto <= s.len(),
        forall|i: int| upto <= i < s.len() ==> is_space(s[i]),
    ensures
        trailing_spaces(s) == (s.len() - upto) + trailing_spaces(s.take(upto)),
    decreases s.len() - upto,
{
    if upto == s.len() {
        assert(s.take(upto) =~= s);
    } else {
        assert(is_space(s.last()));
        let rest = s.drop_last();
        assert forall|i: int| upto <= i < rest.len() implies is_space(rest[i]) by {
            assert(rest[i] == s[i]);
        }
        lemma_trailing_step(rest, upto);
        assert(rest.take(upto) =~= s.take(upto));
    }
}

/// The text without the white space around it.
pub fn trim(s: &str) -> (r: &str)
    ensures
        r@ == trimmed(s@),
{
    let len = s.unicode_len();
    let mut from: usize = 0;
    while from < len && is_whitespace(s.get_char(from))
        invariant
            from <= len,
            len == s@.len(),
            forall|i: int| 0 <= i < from ==> is_space(s@[i]),
        decreases len - from,
    {
        from += 1;
    }
    let mut to: usize = len;
    while to > from && is_whitespace(s.get_char(to - 1))
        invariant
            from <= to <= len,
            len == s@.len(),
            forall|i: int| to <= i < len ==> is_space(s@[i]),
        decreases to,
    {
        to -= 1;
    }
    proof {
        lemma_leading_step(s@, from as int);
        let rest = s@.skip(from as int);
        if from < len {
            assert(rest[0] == s@[from as int]);
        }
        assert(leading_spaces(rest) == 0);
        assert forall|i: int| to - from <= i < rest.len() implies is_space(rest[i]) by {
            assert(rest[i] == s@[i + from]);
        }
        lemma_trailing_step(rest, to - from);
        let kept = rest.take(to - from);
        if to > from {
            assert(kept.last() == s@[to - 1]);
        }
        assert(trailing_spaces(kept) == 0);
        assert(kept =~= s@.subrange(from as int, to as int));
    }
    s.substring_char(from, to)
}

/// The first comma of a text, counted from a place on.
proof fn lemma_comma_step(s: Seq<char>, at: int)
    requires
        0 <= at <= s.len(),
        forall|i: int| 0 <= i < at ==> s[i] != ',',
    ensures
        first_comma(s) == at + first_comma(s.skip(at)),
        0 <= first_comma(s.skip(at)) <= s.len() - at,
    decreases s.len(),
{
    if at == 0 {
        assert(s.skip(0) =~= s);
        lemma_comma_bound(s);
    } else {
        let rest = s.drop_first();
        assert(s[0] != ',');
        assert forall|i: int| 0 <= i < at - 1 implies rest[i] != ',' by {
            assert(rest[i] == s[i + 1]);
        }
        lemma_comma_step(rest, at - 1);
        assert(rest.skip(at - 1) =~= s.skip(at));
    }
}

/// The first comma lies within the text or at its end.
proof fn lemma_comma_bound(s: Seq<char>)
    ensures
        0 <= first_comma(s) <= s.len(),
        first_comma(s) < s.len() ==> s[first_comma(s)] == ',',
    decreases s.len(),
{
    if s.len() > 0 && s[0] != ',' {
        lemma_comma_bound(s.drop_first());
        let k = first_comma(s.drop_first());
        if k < s.drop_first().len() {
            assert(s.drop_first()[k] == s[k + 1]);
        }
    }
}

/// Reads one option from a part of the stored text.
fn parse_part(part: &str) -> (r: Result<GenerateOption, String>)
    ensures
        match r {
            Ok(option) => option_of_name(trimmed(part@)) == Some(option),
            Err(message) => option_of_name(trimmed(part@)) is None && message@
                == option_parse_error(trimmed(part@)),
        },
{
    GenerateOption::from_str(trim(part))
}

/// Reads a choice of options from the text that a job's row stores. The
/// first part that names no option fails the whole text, with the message
/// about that part.
pub fn str_to_generation_options(options: &str) -> (r: Result<Vec<GenerateOption>, String>)
    ensures
        match r {
            Ok(found) => options_of_text(options@) == Ok::<Seq<GenerateOption>, Seq<char>>(found@),
            Err(message) => options_of_text(options@) == Err::<Seq<GenerateOption>, Seq<char>>(
                message@,
            ),
        },
{
    let len = options.unicode_len();
    let mut found: Vec<GenerateOption> = Vec::new();
    let mut start: usize = 0;
    assert(options@.skip(0) =~= options@);
    assert(Seq::<GenerateOption>::empty() + Seq::<GenerateOption>::empty() =~= Seq::<
        GenerateOption,
    >::empty());
    loop
        invariant
            start <= len,
            len == options@.len(),
            options_of_text(options@) == after_options(
                found@,
                parse_all(split_commas(options@.skip(start as int))),
            ),
        decreases len - start,
    {
        let ghost rest = options@.skip(start as int);
        let mut end: usize = start;
        while end < len && options.get_char(end) != ','
            invariant
                start <= end <= len,
                len == options@.len(),
                forall|i: int| start <= i < end ==> options@[i] != ',',
            decreases len - end,
        {
            end += 1;
        }
        proof {
            assert forall|i: int| 0 <= i < end - start implies rest[i] != ',' by {
                assert(rest[i] == options@[i + start]);
            }
            lemma_comma_step(rest, end - start);
            let tail = rest.skip(end - start);
            assert(tail =~= options@.skip(end as int));
            if end < len {
                assert(tail[0] == options@[end as int]);
                assert(first_comma(tail) == 0);
            } else {
                assert(tail.len() == 0);
            }
            assert(first_comma(rest) == end - start);
            assert(rest.take(end - start) =~= options@.subrange(start as int, end as int));
            if end >= len {
                assert(rest =~= options@.subrange(start as int, end as int));
            }
        }
        let part = options.substring_char(start, end);
        let ghost parts = split_commas(rest);
        assert(parts[0] == part@);
        match parse_part(part) {
            Err(message) => {
                return Err(message);
            },
            Ok(option) => {
                let ghost before = found@;
                found.push(option);
                if end >= len {
                    proof {
                        assert(parts.drop_first() =~= Seq::<Seq<char>>::empty());
                        assert(before + (seq![option] + Seq::<GenerateOption>::empty())
                            =~= found@);
                    }
                    return Ok(found);
                }
                proof {
                    let later = split_commas(rest.skip(end - start + 1));
                    assert(parts.drop_first() =~= later);
                    assert(rest.skip(end - start + 1) =~= options@.skip(end + 1));
                    match parse_all(later) {
                        Ok(more) => {
                            assert(before + (seq![option] + more) =~= found@ + more);
                        },
                        Err(_) => {},
                    }
                }
                start = end + 1;
            },
        }
    }
}

/// What it costs to run a stored job again: one credit for each option,
/// where the stored category and options can still be read, and nothing
/// else.
pub open spec fn stored_cost(category: Seq<char>, options: Seq<char>) -> Option<i32> {
    match (id_of_name(category), options_of_text(options)) {
        (Some(_), Ok(found)) => if found.len() <= i32::MAX {
            Some(found.len() as i32)
        } else {
            None
        },
        _ => None,
    }
}

/// Reads the stored category and options of a job, and says what the job
/// costs.
pub fn retry_cost(category: &str, options: &str) -> (r: Option<(GenerateId, Vec<GenerateOption>, i32)>)
    ensures
        match r {
            Some((id, found, cost)) => id_of_name(category@) == Some(id) && options_of_text(
                options@,
            ) == Ok::<Seq<GenerateOption>, Seq<char>>(found@) && stored_cost(category@, options@)
                == Some(cost),
            None => stored_cost(category@, options@) is None,
        },
{
    match GenerateId::from_str(category) {
        Err(_) => None,
        Ok(id) => match str_to_generation_options(options) {
            Err(_) => None,
            Ok(found) => {
                if found.len() <= i32::MAX as usize {
                    let cost = found.len() as i32;
                    Some((id, found, cost))
                } else {
                    None
                }
            },
        },
    }
}

} // verus!
