//! The compression log variables.

use vstd::prelude::*;

verus! {

/// A statistic of one compressed response.
#[derive(Clone, Copy, Debug, PartialEq, Eq, Structural)]
pub enum StatsField {
    Coding,
    Level,
    InputBytes,
    OutputBytes,
    Ratio,
    TimeMs,
}

impl StatsField {
    /// The statistic's name as its log variable spells it after `compress_`.
    pub open spec fn key(self) -> Seq<char> {
        match self {
            StatsField::Coding => "coding"@,
            StatsField::Level => "level"@,
            StatsField::InputBytes => "input_bytes"@,
            StatsField::OutputBytes => "output_bytes"@,
            StatsField::Ratio => "ratio"@,
            StatsField::TimeMs => "time_ms"@,
        }
    }
}

/// The number of compression variables.
pub const VARIABLE_COUNT: usize = 6;

pub open spec fn variable_at(index: usize) -> Option<(Seq<char>, StatsField)> {
    if index == 0 {
        Some(("compress_coding"@, StatsField::Coding))
    } else if index == 1 {
        Some(("compress_level"@, StatsField::Level))
    } else if index == 2 {
        Some(("compress_input_bytes"@, StatsField::InputBytes))
    } else if index == 3 {
        Some(("compress_output_bytes"@, StatsField::OutputBytes))
    } else if index == 4 {
        Some(("compress_ratio"@, StatsField::Ratio))
    } else if index == 5 {
        Some(("compress_time_ms"@, StatsField::TimeMs))
    } else {
        None
    }
}

/// The name and statistic of the variable registered with index `index`.
pub fn variable(index: usize) -> (r: Option<(&'static str, StatsField)>)
    ensures
        match variable_at(index) {
            Some((name, field)) => r matches Some((n, f)) && n@ == name && f == field,
            None => r is None,
        },
{
    if index == 0 {
        Some(("compress_coding", StatsField::Coding))
    } else if index == 1 {
        Some(("compress_level", StatsField::Level))
    } else if index == 2 {
        Some(("compress_input_bytes", StatsField::InputBytes))
    } else if index == 3 {
        Some(("compress_output_bytes", StatsField::OutputBytes))
    } else if index == 4 {
        Some(("compress_ratio", StatsField::Ratio))
    } else if index == 5 {
        Some(("compress_time_ms", StatsField::TimeMs))
    } else {
        None
    }
}

/// Each variable reports the statistic its name names
/// (`$compress_input_bytes` reports the input bytes, and so on), exactly the
/// indices below [`VARIABLE_COUNT`] are registered, and no two variables
/// report the same statistic.
pub proof fn lemma_variables_name_their_statistic(i: usize, j: usize)
    ensures
        variable_at(i) is Some <==> i < VARIABLE_COUNT,
        variable_at(i) matches Some((name, field)) ==> name == "compress_"@ + field.key(),
        variable_at(i) matches Some((_, f)) ==> (variable_at(j) matches Some((_, g)) ==> (i != j
            ==> f != g)),
{
    reveal_strlit("compress_");
    reveal_strlit("coding");
    reveal_strlit("level");
    reveal_strlit("input_bytes");
    reveal_strlit("output_bytes");
    reveal_strlit("ratio");
    reveal_strlit("time_ms");
    reveal_strlit("compress_coding");
    reveal_strlit("compress_level");
    reveal_strlit("compress_input_bytes");
    reveal_strlit("compress_output_bytes");
    reveal_strlit("compress_ratio");
    reveal_strlit("compress_time_ms");
    assert("compress_coding"@ =~= "compress_"@ + "coding"@);
    assert("compress_level"@ =~= "compress_"@ + "level"@);
    assert("compress_input_bytes"@ =~= "compress_"@ + "input_bytes"@);
    assert("compress_output_bytes"@ =~= "compress_"@ + "output_bytes"@);
    assert("compress_ratio"@ =~= "compress_"@ + "ratio"@);
    assert("compress_time_ms"@ =~= "compress_"@ + "time_ms"@);
}

} // verus!
