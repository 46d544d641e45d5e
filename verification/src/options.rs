//! Categories and options of a generation job, their names, and the table
//! that says which option belongs to which category.

use vstd::prelude::*;
use vstd::string::*;
use crate::text::{join3, str_eq};

verus! {

/// The category of a generated paper.
#[derive(Clone, Copy, Debug, PartialEq, Eq, Hash, Structural)]
pub enum GenerateId {
    MathsMechanics,
    MathsStatistics,
    MathsCore,
}

/// One topic that a paper can be asked to cover.
#[derive(Clone, Copy, Debug, PartialEq, Eq, Hash, Structural)]
pub enum GenerateOption {
    SUVAT,
    Momentum,
    Graphs,
    Moments,
    Pullies,
    InclinedSlopes,
    Projectiles,
    Vectors,
    Probability,
    HypothesisTesting,
    NormalDistribution,
    BinomialDistribution,
    Algebra,
    Integration,
    Differentiation,
    TrigonometricIdentities,
    CoordinateGeometry,
    SequencesAndSeries,
}

/// The name under which a category is stored and sent.
pub open spec fn id_name(id: GenerateId) -> Seq<char> {
    match id {
        GenerateId::MathsMechanics => "MathsMechanics"@,
        GenerateId::MathsStatistics => "MathsStatistics"@,
        GenerateId::MathsCore => "MathsCore"@,
    }
}

/// The category that a name stands for, if any.
pub open spec fn id_of_name(s: Seq<char>) -> Option<GenerateId> {
    if s == "MathsMechanics"@ {
        Some(GenerateId::MathsMechanics)
    } else if s == "MathsStatistics"@ {
        Some(GenerateId::MathsStatistics)
    } else if s == "MathsCore"@ {
        Some(GenerateId::MathsCore)
    } else {
        None
    }
}

/// The place of an option in the list of all options, counted from 0: the
/// number that stands for it where options are kept in a set.
pub open spec fn option_number(option: GenerateOption) -> u8 {
    match option {
        GenerateOption::SUVAT => 0,
        GenerateOption::Momentum => 1,
        GenerateOption::Graphs => 2,
        GenerateOption::Moments => 3,
        GenerateOption::Pullies => 4,
        GenerateOption::InclinedSlopes => 5,
        GenerateOption::Projectiles => 6,
        GenerateOption::Vectors => 7,
        GenerateOption::Probability => 8,
        GenerateOption::HypothesisTesting => 9,
        GenerateOption::NormalDistribution => 10,
        GenerateOption::BinomialDistribution => 11,
        GenerateOption::Algebra => 12,
        GenerateOption::Integration => 13,
        GenerateOption::Differentiation => 14,
        GenerateOption::TrigonometricIdentities => 15,
        GenerateOption::CoordinateGeometry => 16,
        GenerateOption::SequencesAndSeries => 17,
    }
}

/// The name under which an option is stored and sent.
pub open spec fn option_name(option: GenerateOption) -> Seq<char> {
    match option {
        GenerateOption::SUVAT => "SUVAT"@,
        GenerateOption::Momentum => "Momentum"@,
        GenerateOption::Graphs => "Graphs"@,
        GenerateOption::Moments => "Moments"@,
        GenerateOption::Pullies => "Pullies"@,
        GenerateOption::InclinedSlopes => "InclinedSlopes"@,
        GenerateOption::Projectiles => "Projectiles"@,
        GenerateOption::Vectors => "Vectors"@,
        GenerateOption::Probability => "Probability"@,
        GenerateOption::HypothesisTesting => "HypothesisTesting"@,
        GenerateOption::NormalDistribution => "NormalDistribution"@,
        GenerateOption::BinomialDistribution => "BinomialDistribution"@,
        GenerateOption::Algebra => "Algebra"@,
        GenerateOption::Integration => "Integration"@,
        GenerateOption::Differentiation => "Differentiation"@,
        GenerateOption::TrigonometricIdentities => "TrigonometricIdentities"@,
        GenerateOption::CoordinateGeometry => "CoordinateGeometry"@,
        GenerateOption::SequencesAndSeries => "SequencesAndSeries"@,
    }
}

/// The option that a name stands for, if any.
pub open spec fn option_of_name(s: Seq<char>) -> Option<GenerateOption> {
    if s == "SUVAT"@ {
        Some(GenerateOption::SUVAT)
    } else if s == "Momentum"@ {
        Some(GenerateOption::Momentum)
    } else if s == "Graphs"@ {
        Some(GenerateOption::Graphs)
    } else if s == "Moments"@ {
        Some(GenerateOption::Moments)
    } else if s == "Pullies"@ {
        Some(GenerateOption::Pullies)
    } else if s == "InclinedSlopes"@ {
        Some(GenerateOption::InclinedSlopes)
    } else if s == "Projectiles"@ {
        Some(GenerateOption::Projectiles)
    } else if s == "Vectors"@ {
        Some(GenerateOption::Vectors)
    } else if s == "Probability"@ {
        Some(GenerateOption::Probability)
    } else if s == "HypothesisTesting"@ {
        Some(GenerateOption::HypothesisTesting)
    } else if s == "NormalDistribution"@ {
        Some(GenerateOption::NormalDistribution)
    } else if s == "BinomialDistribution"@ {
        Some(GenerateOption::BinomialDistribution)
    } else if s == "Algebra"@ {
        Some(GenerateOption::Algebra)
    } else if s == "Integration"@ {
        Some(GenerateOption::Integration)
    } else if s == "Differentiation"@ {
        Some(GenerateOption::Differentiation)
    } else if s == "TrigonometricIdentities"@ {
        Some(GenerateOption::TrigonometricIdentities)
    } else if s == "CoordinateGeometry"@ {
        Some(GenerateOption::CoordinateGeometry)
    } else if s == "SequencesAndSeries"@ {
        Some(GenerateOption::SequencesAndSeries)
    } else {
        None
    }
}

/// The message that rejects a text which names no category.
pub open spec fn id_parse_error(s: Seq<char>) -> Seq<char> {
    "'"@ + s + "' is not a valid GenerateId"@
}

/// The message that rejects a text which names no option.
pub open spec fn option_parse_error(s: Seq<char>) -> Seq<char> {
    "'"@ + s + "' is not a valid GenerateOption"@
}

impl GenerateId {
    /// The category's name.
    pub fn name(&self) -> (r: &'static str)
        ensures
            r@ == id_name(*self),
    {
        match self {
            GenerateId::MathsMechanics => "MathsMechanics",
            GenerateId::MathsStatistics => "MathsStatistics",
            GenerateId::MathsCore => "MathsCore",
        }
    }

    /// The category's name as an owned string.
    pub fn to_string(&self) -> (r: String)
        ensures
            r@ == id_name(*self),
    {
        String::from_str(self.name())
    }

    /// Reads a category from its exact name; any other text is rejected with
    /// a message that quotes it.
    pub fn from_str(s: &str) -> (r: Result<GenerateId, String>)
        ensures
            match r {
                Ok(id) => id_of_name(s@) == Some(id),
                Err(msg) => id_of_name(s@) is None && msg@ == id_parse_error(s@),
            },
    {
        if str_eq(s, "MathsMechanics") {
            Ok(GenerateId::MathsMechanics)
        } else if str_eq(s, "MathsStatistics") {
            Ok(GenerateId::MathsStatistics)
        } else if str_eq(s, "MathsCore") {
            Ok(GenerateId::MathsCore)
        } else {
            Err(join3("'", s, "' is not a valid GenerateId"))
        }
    }
}

impl GenerateOption {
    /// The option's place in the list of all options.
    pub fn number(&self) -> (r: u8)
        ensures
            r == option_number(*self),
    {
        match self {
            GenerateOption::SUVAT => 0,
            GenerateOption::Momentum => 1,
            GenerateOption::Graphs => 2,
            GenerateOption::Moments => 3,
            GenerateOption::Pullies => 4,
            GenerateOption::InclinedSlopes => 5,
            GenerateOption::Projectiles => 6,
            GenerateOption::Vectors => 7,
            GenerateOption::Probability => 8,
            GenerateOption::HypothesisTesting => 9,
            GenerateOption::NormalDistribution => 10,
            GenerateOption::BinomialDistribution => 11,
            GenerateOption::Algebra => 12,
            GenerateOption::Integration => 13,
            GenerateOption::Differentiation => 14,
            GenerateOption::TrigonometricIdentities => 15,
            GenerateOption::CoordinateGeometry => 16,
            GenerateOption::SequencesAndSeries => 17,
        }
    }

    /// The option's name.
    pub fn name(&self) -> (r: &'static str)
        ensures
            r@ == option_name(*self),
    {
        match self {
            GenerateOption::SUVAT => "SUVAT",
            GenerateOption::Momentum => "Momentum",
            GenerateOption::Graphs => "Graphs",
            GenerateOption::Moments => "Moments",
            GenerateOption::Pullies => "Pullies",
            GenerateOption::InclinedSlopes => "InclinedSlopes",
            GenerateOption::Projectiles => "Projectiles",
            GenerateOption::Vectors => "Vectors",
            GenerateOption::Probability => "Probability",
            GenerateOption::HypothesisTesting => "HypothesisTesting",
            GenerateOption::NormalDistribution => "NormalDistribution",
            GenerateOption::BinomialDistribution => "BinomialDistribution",
            GenerateOption::Algebra => "Algebra",
            GenerateOption::Integration => "Integration",
            GenerateOption::Differentiation => "Differentiation",
            GenerateOption::TrigonometricIdentities => "TrigonometricIdentities",
            GenerateOption::CoordinateGeometry => "CoordinateGeometry",
            GenerateOption::SequencesAndSeries => "SequencesAndSeries",
        }
    }

    /// The option's name as an owned string.
    pub fn to_string(&self) -> (r: String)
        ensures
            r@ == option_name(*self),
    {
        String::from_str(self.name())
    }

    /// Reads an option from its exact name; any other text is rejected with a
    /// message that quotes it.
    pub fn from_str(s: &str) -> (r: Result<GenerateOption, String>)
        ensures
            match r {
                Ok(option) => option_of_name(s@) == Some(option),
                Err(msg) => option_of_name(s@) is None && msg@ == option_parse_error(s@),
            },
    {
        if str_eq(s, "SUVAT") {
            Ok(GenerateOption::SUVAT)
        } else if str_eq(s, "Momentum") {
            Ok(GenerateOption::Momentum)
        } else if str_eq(s, "Graphs") {
            Ok(GenerateOption::Graphs)
        } else if str_eq(s, "Moments") {
            Ok(GenerateOption::Moments)
        } else if str_eq(s, "Pullies") {
            Ok(GenerateOption::Pullies)
        } else if str_eq(s, "InclinedSlopes") {
            Ok(GenerateOption::InclinedSlopes)
        } else if str_eq(s, "Projectiles") {
            Ok(GenerateOption::Projectiles)
        } else if str_eq(s, "Vectors") {
            Ok(GenerateOption::Vectors)
        } else if str_eq(s, "Probability") {
            Ok(GenerateOption::Probability)
        } else if str_eq(s, "HypothesisTesting") {
            Ok(GenerateOption::HypothesisTesting)
        } else if str_eq(s, "NormalDistribution") {
            Ok(GenerateOption::NormalDistribution)
        } else if str_eq(s, "BinomialDistribution") {
            Ok(GenerateOption::BinomialDistribution)
        } else if str_eq(s, "Algebra") {
            Ok(GenerateOption::Algebra)
        } else if str_eq(s, "Integration") {
            Ok(GenerateOption::Integration)
        } else if str_eq(s, "Differentiation") {
            Ok(GenerateOption::Differentiation)
        } else if str_eq(s, "TrigonometricIdentities") {
            Ok(GenerateOption::TrigonometricIdentities)
        } else if str_eq(s, "CoordinateGeometry") {
            Ok(GenerateOption::CoordinateGeometry)
        } else if str_eq(s, "SequencesAndSeries") {
            Ok(GenerateOption::SequencesAndSeries)
        } else {
            Err(join3("'", s, "' is not a valid GenerateOption"))
        }
    }
}

/// Reads a category from its name.
pub fn str_to_generation_id(id: &str) -> (r: Result<GenerateId, String>)
    ensures
        match r {
            Ok(v) => id_of_name(id@) == Some(v),
            Err(msg) => id_of_name(id@) is None && msg@ == id_parse_error(id@),
        },
{
    GenerateId::from_str(id)
}

/// The fixed table: whether a category offers an option. `Graphs` is the one
/// option that every category offers.
pub open spec fn compatible(id: GenerateId, option: GenerateOption) -> bool {
    match id {
        GenerateId::MathsMechanics => matches!(
            option,
            GenerateOption::SUVAT | GenerateOption::Momentum | GenerateOption::Graphs
                | GenerateOption::Moments | GenerateOption::Pullies
                | GenerateOption::InclinedSlopes | GenerateOption::Projectiles
                | GenerateOption::Vectors
        ),
        GenerateId::MathsStatistics => matches!(
            option,
            GenerateOption::Probability | GenerateOption::Graphs
                | GenerateOption::HypothesisTesting | GenerateOption::NormalDistribution
                | GenerateOption::BinomialDistribution
        ),
        GenerateId::MathsCore => matches!(
            option,
            GenerateOption::Graphs | GenerateOption::Algebra | GenerateOption::Integration
                | GenerateOption::Differentiation | GenerateOption::TrigonometricIdentities
                | GenerateOption::CoordinateGeometry | GenerateOption::SequencesAndSeries
        ),
    }
}

/// Whether every option of the sequence belongs to the category.
pub open spec fn all_compatible(id: GenerateId, options: Seq<GenerateOption>) -> bool {
    forall|i: int| 0 <= i < options.len() ==> compatible(id, #[trigger] options[i])
}

/// Whether the category offers the option.
pub fn is_compatible(id: GenerateId, option: GenerateOption) -> (r: bool)
    ensures
        r == compatible(id, option),
{
    match id {
        GenerateId::MathsMechanics => match option {
            GenerateOption::SUVAT
            | GenerateOption::Momentum
            | GenerateOption::Graphs
            | GenerateOption::Moments
            | GenerateOption::Pullies
            | GenerateOption::InclinedSlopes
            | GenerateOption::Projectiles
            | GenerateOption::Vectors => true,
            _ => false,
        },
        GenerateId::MathsStatistics => match option {
            GenerateOption::Probability
            | GenerateOption::Graphs
            | GenerateOption::HypothesisTesting
            | GenerateOption::NormalDistribution
            | GenerateOption::BinomialDistribution => true,
            _ => false,
        },
        GenerateId::MathsCore => match option {
            GenerateOption::Graphs
            | GenerateOption::Algebra
            | GenerateOption::Integration
            | GenerateOption::Differentiation
            | GenerateOption::TrigonometricIdentities
            | GenerateOption::CoordinateGeometry
            | GenerateOption::SequencesAndSeries => true,
            _ => false,
        },
    }
}

/// Accepts a choice of options exactly when each of them belongs to the
/// category; the empty choice passes here.
pub fn check_generate_options(value: &Vec<GenerateOption>, payload_id: GenerateId) -> (r: bool)
    ensures
        r == all_compatible(payload_id, value@),
{
    let mut i: usize = 0;
    while i < value.len()
        invariant
            i <= value.len(),
            forall|j: int| 0 <= j < i ==> compatible(payload_id, #[trigger] value@[j]),
        decreases value.len() - i,
    {
        if !is_compatible(payload_id, value[i]) {
            return false;
        }
        i += 1;
    }
    true
}

/// The names of the options, separated by single commas.
pub open spec fn options_text(options: Seq<GenerateOption>) -> Seq<char>
    decreases options.len(),
{
    if options.len() == 0 {
        Seq::empty()
    } else if options.len() == 1 {
        option_name(options[0])
    } else {
        options_text(options.drop_last()) + ","@ + option_name(options.last())
    }
}

/// Writes a choice of options as the text that a job row stores.
pub fn generate_options_to_string(ids: &Vec<GenerateOption>) -> (r: String)
    ensures
        r@ == options_text(ids@),
{
    let mut result = String::new();
    let mut i: usize = 0;
    while i < ids.len()
        invariant
            i <= ids.len(),
            result@ == options_text(ids@.take(i as int)),
        decreases ids.len() - i,
    {
        if i > 0 {
            result.append(",");
        }
        result.append(ids[i].name());
        proof {
            let next = ids@.take(i + 1);
            assert(next.drop_last() =~= ids@.take(i as int));
            assert(next.last() == ids@[i as int]);
            if i == 0 {
                assert(result@ =~= option_name(ids@[0]));
            }
        }
        i += 1;
    }
    assert(ids@.take(ids.len() as int) =~= ids@);
    result
}

/// What every name of an option is known to hold.
proof fn lemma_option_names()
    ensures
        "SUVAT"@.len() == 5,
        "Momentum"@.len() == 8,
        "Graphs"@.len() == 6,
        "Moments"@.len() == 7 && "Moments"@[0] == 'M',
        "Pullies"@.len() == 7 && "Pullies"@[0] == 'P',
        "InclinedSlopes"@.len() == 14,
        "Projectiles"@.len() == 11 && "Projectiles"@[0] == 'P' && "Projectiles"@[3] == 'j',
        "Vectors"@.len() == 7 && "Vectors"@[0] == 'V',
        "Probability"@.len() == 11 && "Probability"@[0] == 'P' && "Probability"@[3] == 'b',
        "HypothesisTesting"@.len() == 17,
        "NormalDistribution"@.len() == 18 && "NormalDistribution"@[0] == 'N',
        "BinomialDistribution"@.len() == 20,
        "Algebra"@.len() == 7 && "Algebra"@[0] == 'A',
        "Integration"@.len() == 11 && "Integration"@[0] == 'I',
        "Differentiation"@.len() == 15,
        "TrigonometricIdentities"@.len() == 23,
        "CoordinateGeometry"@.len() == 18 && "CoordinateGeometry"@[0] == 'C',
        "SequencesAndSeries"@.len() == 18 && "SequencesAndSeries"@[0] == 'S',
{
    reveal_strlit("SUVAT");
    reveal_strlit("Momentum");
    reveal_strlit("Graphs");
    reveal_strlit("Moments");
    reveal_strlit("Pullies");
    reveal_strlit("InclinedSlopes");
    reveal_strlit("Projectiles");
    reveal_strlit("Vectors");
    reveal_strlit("Probability");
    reveal_strlit("HypothesisTesting");
    reveal_strlit("NormalDistribution");
    reveal_strlit("BinomialDistribution");
    reveal_strlit("Algebra");
    reveal_strlit("Integration");
    reveal_strlit("Differentiation");
    reveal_strlit("TrigonometricIdentities");
    reveal_strlit("CoordinateGeometry");
    reveal_strlit("SequencesAndSeries");
}

/// No two options share a place in the list.
pub proof fn lemma_option_number_tells_apart(a: GenerateOption, b: GenerateOption)
    ensures
        option_number(a) == option_number(b) <==> a == b,
{
}

/// Every option is read back from its own name: no two options share one.
pub proof fn lemma_option_name_round_trip(option: GenerateOption)
    ensures
        option_of_name(option_name(option)) == Some(option),
{
    lemma_option_names();
}

/// Every category is read back from its own name.
pub proof fn lemma_id_name_round_trip(id: GenerateId)
    ensures
        id_of_name(id_name(id)) == Some(id),
{
    reveal_strlit("MathsMechanics");
    reveal_strlit("MathsStatistics");
    reveal_strlit("MathsCore");
    assert("MathsMechanics"@.len() == 14);
    assert("MathsStatistics"@.len() == 15);
    assert("MathsCore"@.len() == 9);
}

/// Every category offers `Graphs`, and no option but `Graphs` belongs to
/// two categories.
pub proof fn lemma_table_overlaps_in_graphs_only(a: GenerateId, b: GenerateId, option: GenerateOption)
    ensures
        compatible(a, GenerateOption::Graphs),
        a != b && compatible(a, option) && compatible(b, option) ==> option
            == GenerateOption::Graphs,
{
}

} // verus!
