use vstd::prelude::*;

use crate::statistic::{Deviation, Statistic, min_len, required_len};

verus! {

/// How a statistic treats a sequence shorter than it needs.
#[derive(Clone, Copy, Debug, PartialEq, Eq, Structural)]
pub enum Mode {
    /// Refuses the sequence with an [`InvalidInput`].
    Strict,
    /// Computes anyway and lets the arithmetic yield `NaN` or an infinity.
    Permissive,
}

impl Default for Mode {
    /// Permissive, as unchecked arithmetic behaves.
    fn default() -> (r: Mode)
        ensures
            r == Mode::Permissive,
    {
        Mode::Permissive
    }
}

/// A sequence, or a summary's count, below the minimum a statistic needs.
#[derive(Clone, Copy, Debug, PartialEq, Eq, Structural)]
pub struct InvalidInput {
    /// The fewest observations the statistic is defined for.
    pub required: usize,
    /// How many there were.
    pub found: usize,
}

/// Decides whether `stat` may be computed over `len` observations: in strict
/// mode a sequence below the minimum is refused, in permissive mode every
/// length passes.
pub fn check_len(mode: Mode, stat: Statistic, len: usize) -> (r: Result<(), InvalidInput>)
    ensures
        r is Err <==> (mode == Mode::Strict && len < required_len(stat)),
        r matches Err(e) ==> e.required == required_len(stat) && e.found == len,
{
    let required = min_len(stat);
    match mode {
        Mode::Strict if len < required => Err(InvalidInput { required, found: len }),
        _ => Ok(()),
    }
}

/// Decides whether a two-sample t-test may combine summaries of `n_1` and
/// `n_2` observations. Each summary must have as many observations as a
/// sample standard deviation needs; in strict mode the first that falls short
/// is reported.
pub fn check_summaries(mode: Mode, n_1: usize, n_2: usize) -> (r: Result<(), InvalidInput>)
    ensures
        ({
            let req = required_len(Statistic::StandardDeviation(Deviation::Sample));
            &&& r is Err <==> (mode == Mode::Strict && (n_1 < req || n_2 < req))
            &&& r matches Err(e) ==> e.required == req && e.found == (if n_1 < req {
                n_1
            } else {
                n_2
            })
        }),
{
    let stat = Statistic::StandardDeviation(Deviation::Sample);
    match check_len(mode, stat, n_1) {
        Err(e) => Err(e),
        Ok(()) => check_len(mode, stat, n_2),
    }
}

} // verus!
