use vstd::prelude::*;

verus! {

/// Which divisor a standard deviation applies to the sum of squared
/// deviations from the mean.
#[derive(Clone, Copy, Debug, PartialEq, Eq, Structural)]
pub enum Deviation {
    /// Bessel-corrected: divides by `n - 1`.
    Sample,
    /// Uncorrected: divides by `n`.
    Population,
}

/// A statistic computed from a sequence of observations.
#[derive(Clone, Copy, Debug, PartialEq, Eq, Structural)]
pub enum Statistic {
    Mean,
    StandardDeviation(Deviation),
}

/// The fewest observations for which a statistic is defined.
pub open spec fn required_len(stat: Statistic) -> nat {
    match stat {
        Statistic::Mean => 1,
        Statistic::StandardDeviation(Deviation::Sample) => 2,
        Statistic::StandardDeviation(Deviation::Population) => 1,
    }
}

/// The fewest observations for which `stat` is defined.
pub fn min_len(stat: Statistic) -> (r: usize)
    ensures
        r == required_len(stat),
{
    match stat {
        Statistic::Mean => 1,
        Statistic::StandardDeviation(Deviation::Sample) => 2,
        Statistic::StandardDeviation(Deviation::Population) => 1,
    }
}

} // verus!

verus! {

/// The divisor that `dev` applies to the sum of squared deviations of `n`
/// observations.
pub open spec fn divisor_of(dev: Deviation, n: int) -> int {
    match dev {
        Deviation::Sample => n - 1,
        Deviation::Population => n,
    }
}

/// The divisor that `dev` applies to the sum of squared deviations of `n`
/// observations: `n - 1` for a sample, `n` for a population. For a sample of
/// no observations it is `-1`.
pub fn divisor(dev: Deviation, n: usize) -> (r: i128)
    ensures
        r == divisor_of(dev, n as int),
{
    match dev {
        Deviation::Sample => n as i128 - 1,
        Deviation::Population => n as i128,
    }
}

/// For every count the sample divisor lies one below the population divisor,
/// and for a count that the sample standard deviation accepts both divisors
/// are positive.
pub proof fn sample_divisor_below_population(n: int)
    ensures
        divisor_of(Deviation::Sample, n) < divisor_of(Deviation::Population, n),
        n >= required_len(Statistic::StandardDeviation(Deviation::Sample)) ==> 0 < divisor_of(
            Deviation::Sample,
            n,
        ),
{
}

} // verus!
