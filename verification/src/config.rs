//! The settings of the service, and how they are read from text.
//!
//! A setting that is not given, or whose text is no number, keeps its
//! default.

use vstd::prelude::*;
use vstd::string::*;

verus! {

/// The value of a decimal digit.
pub open spec fn digit_value(c: char) -> Option<int> {
    if '0' <= c && c <= '9' {
        Some(c as int - '0' as int)
    } else {
        None
    }
}

/// The number that a row of decimal digits spells; none for an empty row
/// or one that holds anything else.
pub open spec fn digits_value(s: Seq<char>) -> Option<int>
    decreases s.len(),
{
    if s.len() == 0 {
        None
    } else if s.len() == 1 {
        digit_value(s[0])
    } else {
        match (digits_value(s.drop_last()), digit_value(s.last())) {
            (Some(front), Some(d)) => Some(front * 10 + d),
            _ => None,
        }
    }
}

/// The integer that a text spells: digits, with a plus or a minus sign in
/// front of them if there is one.
pub open spec fn signed_value(s: Seq<char>) -> Option<int> {
    if s.len() > 0 && s[0] == '-' {
        match digits_value(s.drop_first()) {
            Some(v) => Some(-v),
            None => None,
        }
    } else if s.len() > 0 && s[0] == '+' {
        digits_value(s.drop_first())
    } else {
        digits_value(s)
    }
}

/// The 64-bit integer that a text spells, where it spells one that fits.
pub open spec fn i64_of_text(s: Seq<char>) -> Option<i64> {
    match signed_value(s) {
        Some(v) => if i64::MIN <= v <= i64::MAX {
            Some(v as i64)
        } else {
            None
        },
        None => None,
    }
}

/// A row of digits spells no smaller number than any of its front parts,
/// and a front part of it is a row of digits too.
proof fn lemma_digits_grow(s: Seq<char>, upto: int)
    requires
        1 <= upto <= s.len(),
        digits_value(s) is Some,
    ensures
        digits_value(s.take(upto)) is Some,
        0 <= digits_value(s.take(upto))->0 <= digits_value(s)->0,
    decreases s.len(),
{
    if upto == s.len() {
        assert(s.take(upto) =~= s);
        if s.len() > 1 {
            lemma_digits_grow(s.drop_last(), s.len() - 1);
            assert(s.drop_last().take(s.len() - 1) =~= s.drop_last());
        }
    } else {
        lemma_digits_grow(s.drop_last(), upto);
        assert(s.drop_last().take(upto) =~= s.take(upto));
        lemma_digits_grow(s.drop_last(), s.len() - 1);
        assert(s.drop_last().take(s.len() - 1) =~= s.drop_last());
    }
}

/// The value of a decimal digit; `None` for any other character.
fn digit_of(c: char) -> (r: Option<u8>)
    ensures
        match r {
            Some(d) => digit_value(c) == Some(d as int) && d <= 9,
            None => digit_value(c) is None,
        },
{
    if '0' <= c && c <= '9' {
        Some(((c as u32) - ('0' as u32)) as u8)
    } else {
        None
    }
}

/// Reads a 64-bit integer from its decimal text: digits, with one sign in
/// front of them if there is one. Anything else is `None`, as is a number
/// that does not fit.
pub fn parse_i64(text: &str) -> (r: Option<i64>)
    ensures
        r == i64_of_text(text@),
{
    let len = text.unicode_len();
    if len == 0 {
        return None;
    }
    let first = text.get_char(0);
    let negative = first == '-';
    let start: usize = if first == '-' || first == '+' {
        1
    } else {
        0
    };
    let ghost body = text@.skip(start as int);
    proof {
        if start == 1 {
            assert(body =~= text@.drop_first());
        } else {
            assert(body =~= text@);
        }
    }
    if start == len {
        return None;
    }
    let limit: i128 = 9223372036854775808;
    let mut acc: i128 = 0;
    let mut i: usize = start;
    let ghost spelled = digits_value(body);
    assert(signed_value(text@) == (if negative {
        match spelled {
            Some(v) => Some(-v),
            None => None,
        }
    } else {
        spelled
    }));
    while i < len
        invariant
            start <= i <= len,
            start < len,
            len == text@.len(),
            body == text@.skip(start as int),
            spelled == digits_value(body),
            signed_value(text@) == (if negative {
                match spelled {
                    Some(v) => Some(-v),
                    None => None,
                }
            } else {
                spelled
            }),
            limit == 9223372036854775808,
            0 <= acc <= limit,
            i > start ==> digits_value(body.take(i - start)) == Some(acc as int),
            i == start ==> acc == 0,
        decreases len - i,
    {
        let c = text.get_char(i);
        proof {
            assert(body[i - start] == c);
            let next = body.take(i - start + 1);
            assert(next.last() == c);
            assert(next.drop_last() =~= body.take(i - start));
            assert(next.len() == i - start + 1);
            if i == start {
                assert(next[0] == c);
                assert(digits_value(next) == digit_value(c));
            } else {
                assert(digits_value(next) == (match digit_value(c) {
                    Some(d) => Some(acc * 10 + d),
                    None => None::<int>,
                }));
            }
        }
        match digit_of(c) {
            None => {
                proof {
                    if digits_value(body) is Some {
                        lemma_digits_grow(body, i - start + 1);
                    }
                }
                return None;
            },
            Some(d) => {
                let next: i128 = acc * 10 + d as i128;
                if next > limit {
                    proof {
                        if digits_value(body) is Some {
                            lemma_digits_grow(body, i - start + 1);
                        }
                    }
                    return None;
                }
                acc = next;
            },
        }
        i += 1;
    }
    assert(body.take(len - start) =~= body);
    if negative {
        Some((-acc) as i64)
    } else if acc == limit {
        None
    } else {
        Some(acc as i64)
    }
}

/// A setting read from its text: the number that the text spells, or the
/// default where there is no text or it spells no number.
pub fn setting(text: Option<&str>, default: i64) -> (r: i64)
    ensures
        r == (match text {
            Some(t) => match i64_of_text(t@) {
                Some(v) => v,
                None => default,
            },
            None => default,
        }),
{
    match text {
        Some(t) => match parse_i64(t) {
            Some(v) => v,
            None => default,
        },
        None => default,
    }
}

/// The seconds after which a grant of the standard kind expires: three
/// weeks.
pub const STANDARD_CREDITS_EXPIRE_AFTER_SECS: i64 = 1814400;

/// The seconds after which the credits given for a verified address
/// expire: three days.
pub const FREE_CREDITS_ON_VERIFY_EXPIRE_AFTER_SECS: i64 = 259200;

/// The credits given for a verified address.
pub const FREE_CREDITS_ON_VERIFY: i64 = 4;

/// The settings of the service, fixed when it starts.
#[derive(Clone, Copy, Debug, PartialEq, Eq, Structural)]
pub struct Config {
    pub standard_credits_expire_after_secs: i64,
    pub free_credits_on_verify_expire_after_secs: i64,
    pub free_credits_on_verify: i64,
}

impl Config {
    /// The settings as they are where nothing is set.
    pub fn defaults() -> (r: Config)
        ensures
            r == (Config {
                standard_credits_expire_after_secs: STANDARD_CREDITS_EXPIRE_AFTER_SECS,
                free_credits_on_verify_expire_after_secs: FREE_CREDITS_ON_VERIFY_EXPIRE_AFTER_SECS,
                free_credits_on_verify: FREE_CREDITS_ON_VERIFY,
            }),
    {
        Config {
            standard_credits_expire_after_secs: STANDARD_CREDITS_EXPIRE_AFTER_SECS,
            free_credits_on_verify_expire_after_secs: FREE_CREDITS_ON_VERIFY_EXPIRE_AFTER_SECS,
            free_credits_on_verify: FREE_CREDITS_ON_VERIFY,
        }
    }

    /// The moment at which a grant of the standard kind made at `now`
    /// expires; `None` where that moment cannot be told in 64 bits.
    pub fn standard_expiry(&self, now: i64) -> (r: Option<i64>)
        ensures
            match r {
                Some(at) => at == now + self.standard_credits_expire_after_secs,
                None => now + self.standard_credits_expire_after_secs > i64::MAX || now
                    + self.standard_credits_expire_after_secs < i64::MIN,
            },
    {
        now.checked_add(self.standard_credits_expire_after_secs)
    }
}

} // verus!
