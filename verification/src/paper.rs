//! A paper: the questions generated for one job, and who asked for them.

use vstd::prelude::*;
use crate::engine::{
    generate_from_options, schedule_of, GenerateFailure, GenerateResult, Generator,
    GENERATE_QUESTIONS_PER_TOPIC,
};
use crate::options::{GenerateId, GenerateOption};
use crate::question::QuestionType;

verus! {

/// The questions of one job.
#[derive(Debug)]
pub struct Paper {
    pub questions: Vec<QuestionType>,
    pub created_by: i64,
    /// When the paper was made, in seconds.
    pub created_on: i64,
    pub generated_catagory: GenerateId,
    pub generated_options: Vec<GenerateOption>,
}

impl Paper {
    /// A paper without questions yet.
    pub fn new(
        created_by: i64,
        generated_catagory: GenerateId,
        generated_options: Vec<GenerateOption>,
        created_on: i64,
    ) -> (r: Self)
        ensures
            r.created_by == created_by,
            r.created_on == created_on,
            r.generated_catagory == generated_catagory,
            r.generated_options == generated_options,
            r.questions@.len() == 0,
    {
        Self { created_by, generated_catagory, generated_options, created_on, questions: Vec::new() }
    }

    /// The generator calls that fill this paper, in order: each option's
    /// generator `GENERATE_QUESTIONS_PER_TOPIC` times; or the first option
    /// that the paper's category cannot generate.
    pub fn populate(&self) -> (r: GenerateResult<Vec<Generator>>)
        ensures
            match r {
                Ok(calls) => schedule_of(
                    self.generated_catagory,
                    GENERATE_QUESTIONS_PER_TOPIC as nat,
                    self.generated_options@,
                ) == Ok::<Seq<Generator>, GenerateFailure>(calls@),
                Err(failure) => schedule_of(
                    self.generated_catagory,
                    GENERATE_QUESTIONS_PER_TOPIC as nat,
                    self.generated_options@,
                ) == Err::<Seq<Generator>, GenerateFailure>(failure),
            },
    {
        generate_from_options(
            self.generated_catagory,
            GENERATE_QUESTIONS_PER_TOPIC,
            &self.generated_options,
        )
    }

    /// Puts the questions of one generator call at the end of the paper.
    pub fn append(&mut self, questions: Vec<QuestionType>)
        ensures
            final(self).questions@ == old(self).questions@ + questions@,
            final(self).created_by == old(self).created_by,
            final(self).created_on == old(self).created_on,
            final(self).generated_catagory == old(self).generated_catagory,
            final(self).generated_options == old(self).generated_options,
    {
        let mut questions = questions;
        self.questions.append(&mut questions);
    }
}

} // verus!
