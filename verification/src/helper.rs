//! Random draws for the question generators.
//!
//! The draws themselves are made by the `rand` crate, in the three functions
//! at the end of this file; of a draw nothing is known but the range in
//! which it lies. Everything else is worked out from such draws here.

use vstd::prelude::*;

verus! {

/// The number of integers in `min..max` that are not `except`.
pub open spec fn count_except(min: int, max: int, except: int) -> int {
    if min <= except < max {
        max - min - 1
    } else {
        max - min
    }
}

/// The number of integers in `min..max` that are smaller than `except_min`
/// or larger than `except_max`.
pub open spec fn count_outside(min: int, max: int, except_min: int, except_max: int) -> int {
    if min >= max {
        0
    } else if except_min > except_max {
        max - min
    } else {
        below(min, max, except_min) + above(min, max, except_max)
    }
}

/// The number of integers in `min..max` that are smaller than `bound`.
pub open spec fn below(min: int, max: int, bound: int) -> int {
    if bound <= min {
        0
    } else if bound >= max {
        max - min
    } else {
        bound - min
    }
}

/// The number of integers in `min..max` that are larger than `bound`.
pub open spec fn above(min: int, max: int, bound: int) -> int {
    if bound >= max - 1 {
        0
    } else if bound < min {
        max - min
    } else {
        max - 1 - bound
    }
}

/// The text is that of one of the options.
pub open spec fn one_of(options: Seq<&'static str>, text: Seq<char>) -> bool {
    exists|i: int| 0 <= i < options.len() && options[i]@ == text
}

/// A random integer of `min..max` other than `except`. There has to be one.
pub fn gen_range_i32_except(min: i32, max: i32, except: i32) -> (r: i32)
    requires
        count_except(min as int, max as int, except as int) > 0,
    ensures
        min <= r < max,
        r != except,
{
    if min <= except && except < max {
        // One value fewer to choose from: draw a place among the others and
        // step over the excepted value.
        let place = gen_range_i32(min, max - 1);
        if place >= except {
            place + 1
        } else {
            place
        }
    } else {
        gen_range_i32(min, max)
    }
}

/// A random integer of `min..max` that is smaller than `except_min` or
/// larger than `except_max`. There has to be one.
pub fn gen_range_i32_except_within_range(min: i32, max: i32, except_min: i32, except_max: i32) -> (r:
    i32)
    requires
        count_outside(min as int, max as int, except_min as int, except_max as int) > 0,
    ensures
        min <= r < max,
        r < except_min || r > except_max,
{
    if except_min > except_max {
        // Every number is smaller than the one bound or larger than the other.
        return gen_range_i32(min, max);
    }
    let low: i64 = if except_min <= min {
        0
    } else if except_min >= max {
        max as i64 - min as i64
    } else {
        except_min as i64 - min as i64
    };
    let high: i64 = if except_max as i64 >= max as i64 - 1 {
        0
    } else if except_max < min {
        max as i64 - min as i64
    } else {
        max as i64 - 1 - except_max as i64
    };
    if high == 0 {
        // Only values below the gap are left.
        gen_range_i32(min, (min as i64 + low) as i32)
    } else if low == 0 {
        // Only values above the gap are left.
        gen_range_i32((max as i64 - high) as i32, max)
    } else {
        // Both sides are there, so the gap lies inside the range: draw a
        // place among the values that are left and step over the gap.
        let width: i64 = except_max as i64 - except_min as i64 + 1;
        let place = gen_range_i32(min, (max as i64 - width) as i32);
        if place >= except_min {
            (place as i64 + width) as i32
        } else {
            place
        }
    }
}

/// The article and the name of a thing that can be taken for a particle.
pub open spec fn particle_names() -> Seq<Seq<char>> {
    seq![
        "ball"@,
        "rock"@,
        "car"@,
        "volleyball"@,
        "truck"@,
        "boat"@,
        "plane"@,
        "rocket"@,
        "ship"@,
        "mass"@,
    ]
}

/// The names of things that are long and thin.
pub open spec fn long_names() -> Seq<Seq<char>> {
    seq!["beam"@, "ladder"@, "pole"@, "metal pole"@, "steel beam"@, "stick"@]
}

/// The article and the name of a random thing that a question can treat as
/// a particle.
pub fn get_particle_object_name() -> (r: (&'static str, &'static str))
    ensures
        r.0@ == "A"@,
        particle_names().contains(r.1@),
{
    let index = gen_range_i32(0, 10);
    let name = if index == 0 {
        "ball"
    } else if index == 1 {
        "rock"
    } else if index == 2 {
        "car"
    } else if index == 3 {
        "volleyball"
    } else if index == 4 {
        "truck"
    } else if index == 5 {
        "boat"
    } else if index == 6 {
        "plane"
    } else if index == 7 {
        "rocket"
    } else if index == 8 {
        "ship"
    } else {
        "mass"
    };
    assert(particle_names()[index as int] == name@);
    ("A", name)
}

/// The article and the name of a random thing that is long and thin.
pub fn get_long_object_name() -> (r: (&'static str, &'static str))
    ensures
        r.0@ == "A"@,
        long_names().contains(r.1@),
{
    let index = gen_range_i32(0, 6);
    let name = if index == 0 {
        "beam"
    } else if index == 1 {
        "ladder"
    } else if index == 2 {
        "pole"
    } else if index == 3 {
        "metal pole"
    } else if index == 4 {
        "steel beam"
    } else {
        "stick"
    };
    assert(long_names()[index as int] == name@);
    ("A", name)
}

/// A random place in a list of `len` items.
pub fn random_index(len: usize) -> (r: usize)
    requires
        0 < len <= i32::MAX,
    ensures
        r < len,
{
    gen_range_i32(0, len as i32) as usize
}

/// `Rng::gen_range` of the `rand` crate on the thread's generator, for the
/// half-open range `min..max` of `i32`. It panics on an empty range, which
/// is left out. Trusted: the draw lies in the range.
#[verifier::external_body]
pub fn gen_range_i32(min: i32, max: i32) -> (r: i32)
    requires
        min < max,
    ensures
        min <= r < max,
{
    rand::Rng::gen_range(&mut rand::thread_rng(), min..max)
}

/// `Rng::gen_ratio` of the `rand` crate on the thread's generator, one in
/// two: a fair coin. Nothing is claimed of how it falls.
#[verifier::external_body]
pub fn coin_flip() -> bool {
    rand::Rng::gen_ratio(&mut rand::thread_rng(), 1, 2)
}

/// `SliceRandom::choose` of the `rand` crate on the thread's generator. It
/// hands back `None` for an empty list, which is left out. Trusted: the
/// text is one of the list.
#[verifier::external_body]
pub(crate) fn choose_str(options: &Vec<&'static str>) -> (r: &'static str)
    requires
        options@.len() > 0,
    ensures
        one_of(options@, r@),
{
    match rand::seq::SliceRandom::choose(options.as_slice(), &mut rand::thread_rng()) {
        Some(text) => *text,
        None => "",
    }
}

} // verus!
