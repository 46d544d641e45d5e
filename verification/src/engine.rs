//! Which generator answers which option, and the order in which a paper
//! calls its generators.

use vstd::prelude::*;
use crate::options::{GenerateId, GenerateOption};

verus! {

/// Why a paper could not be generated.
#[derive(Clone, Copy, Debug, PartialEq, Eq, Structural)]
pub enum GenerateFailure {
    /// The category has no generator for this option.
    InvalidOption(GenerateOption),
}

/// The result of a generation.
pub type GenerateResult<T> = Result<T, GenerateFailure>;

/// How often each option's generator is called for one paper.
pub const GENERATE_QUESTIONS_PER_TOPIC: usize = 3;

/// A generator of questions on one topic.
#[derive(Clone, Copy, Debug, PartialEq, Eq, Structural)]
pub enum Generator {
    /// Motion of a particle under constant acceleration.
    Suvat,
    /// Vectors.
    Vectors,
}

/// The generator that a category has for an option, if it has one.
pub open spec fn generator_of(id: GenerateId, option: GenerateOption) -> Option<Generator> {
    match (id, option) {
        (GenerateId::MathsMechanics, GenerateOption::SUVAT) => Some(Generator::Suvat),
        (GenerateId::MathsMechanics, GenerateOption::Vectors) => Some(Generator::Vectors),
        _ => None,
    }
}

/// The generator calls of a paper: for each option in turn its generator,
/// `per_option` times; the first option without a generator fails the paper.
pub open spec fn schedule_of(id: GenerateId, per_option: nat, options: Seq<GenerateOption>)
    -> GenerateResult<Seq<Generator>>
    decreases options.len(),
{
    if options.len() == 0 {
        Ok(Seq::empty())
    } else {
        match schedule_of(id, per_option, options.drop_last()) {
            Err(failure) => Err(failure),
            Ok(calls) => match generator_of(id, options.last()) {
                None => Err(GenerateFailure::InvalidOption(options.last())),
                Some(g) => Ok(calls + Seq::new(per_option, |i: int| g)),
            },
        }
    }
}

/// The generator that a category has for an option.
pub fn get_generator_from_option(id: GenerateId, option: &GenerateOption) -> (r: Option<Generator>)
    ensures
        r == generator_of(id, *option),
{
    match id {
        GenerateId::MathsMechanics => match option {
            GenerateOption::SUVAT => Some(Generator::Suvat),
            GenerateOption::Vectors => Some(Generator::Vectors),
            _ => None,
        },
        _ => None,
    }
}

/// Lays out the generator calls of a paper, in order, or names the first
/// option that the category cannot generate.
pub fn generate_from_options(
    id: GenerateId,
    target_amount_per_option: usize,
    options: &Vec<GenerateOption>,
) -> (r: GenerateResult<Vec<Generator>>)
    ensures
        match r {
            Ok(calls) => schedule_of(id, target_amount_per_option as nat, options@) == Ok::<
                Seq<Generator>,
                GenerateFailure,
            >(calls@),
            Err(failure) => schedule_of(id, target_amount_per_option as nat, options@) == Err::<
                Seq<Generator>,
                GenerateFailure,
            >(failure),
        },
{
    let mut calls: Vec<Generator> = Vec::new();
    let mut i: usize = 0;
    assert(options@.take(0) =~= Seq::<GenerateOption>::empty());
    while i < options.len()
        invariant
            i <= options.len(),
            schedule_of(id, target_amount_per_option as nat, options@.take(i as int)) == Ok::<
                Seq<Generator>,
                GenerateFailure,
            >(calls@),
        decreases options.len() - i,
    {
        proof {
            let next = options@.take(i + 1);
            assert(next.drop_last() =~= options@.take(i as int));
            assert(next.last() == options@[i as int]);
        }
        match get_generator_from_option(id, &options[i]) {
            None => {
                proof {
                    lemma_failure_stays(id, target_amount_per_option as nat, options@, i + 1);
                }
                return Err(GenerateFailure::InvalidOption(options[i]));
            },
            Some(g) => {
                let ghost before = calls@;
                let mut n: usize = 0;
                while n < target_amount_per_option
                    invariant
                        n <= target_amount_per_option,
                        calls@ == before + Seq::new(n as nat, |k: int| g),
                    decreases target_amount_per_option - n,
                {
                    calls.push(g);
                    n += 1;
                    assert(calls@ =~= before + Seq::new(n as nat, |k: int| g));
                }
            },
        }
        i += 1;
    }
    assert(options@.take(options.len() as int) =~= options@);
    Ok(calls)
}

/// Once a front part of the options fails, every longer part fails alike.
proof fn lemma_failure_stays(id: GenerateId, per_option: nat, options: Seq<GenerateOption>, upto: int)
    requires
        0 <= upto <= options.len(),
        schedule_of(id, per_option, options.take(upto)) is Err,
    ensures
        schedule_of(id, per_option, options) == schedule_of(id, per_option, options.take(upto)),
    decreases options.len() - upto,
{
    if upto == options.len() {
        assert(options.take(upto) =~= options);
    } else {
        let next = options.take(upto + 1);
        assert(next.drop_last() =~= options.take(upto));
        lemma_failure_stays(id, per_option, options, upto + 1);
    }
}

} // verus!
