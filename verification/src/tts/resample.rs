//! Linear interpolation between two sample rates.
use vstd::prelude::*;

verus! {

/// `sample` is what linear interpolation gives at position `index` plus `fraction` of `samples`: the
/// mix of the two samples around it, or the last sample where none follows.
pub open spec fn interpolates<T, F, M: Fn(T, T, F) -> T>(
    samples: Seq<T>,
    index: int,
    fraction: F,
    mix: M,
    sample: T,
) -> bool {
    if index + 1 < samples.len() {
        call_ensures(mix, (samples[index], samples[index + 1], fraction), sample)
    } else {
        sample == samples.last()
    }
}

/// Resample mono audio. `grid` gives for each sample of the result its position in `samples`, as an
/// index and what is left of it; `mix` mixes two neighbours by what is left.
///
/// Audio that has the rate already, and empty audio, is returned as it is.
pub fn resample_linear<T: Copy, F: Copy, M: Fn(T, T, F) -> T>(
    samples: &[T],
    from_rate: u32,
    to_rate: u32,
    grid: &[(usize, F)],
    mix: M,
) -> (resampled: Vec<T>)
    requires
        forall|a: T, b: T, fraction: F| call_requires(mix, (a, b, fraction)),
        forall|i: int| 0 <= i < grid@.len() ==> (#[trigger] grid@[i]).0 < usize::MAX,
    ensures
        from_rate == to_rate || samples@.len() == 0 ==> resampled@ == samples@,
        from_rate != to_rate && samples@.len() > 0 ==> {
            &&& resampled@.len() == grid@.len()
            &&& forall|i: int|
                0 <= i < grid@.len() ==> interpolates(
                    samples@,
                    grid@[i].0 as int,
                    grid@[i].1,
                    mix,
                    #[trigger] resampled@[i],
                )
        },
{
    let mut resampled: Vec<T> = Vec::new();
    let mut i: usize = 0;
    if from_rate == to_rate || samples.len() == 0 {
        while i < samples.len()
            invariant
                i <= samples@.len(),
                resampled@ == samples@.take(i as int),
            decreases samples@.len() - i,
        {
            resampled.push(samples[i]);
            i = i + 1;
        }
        return resampled;
    }
    while i < grid.len()
        invariant
            i <= grid@.len(),
            samples@.len() > 0,
            resampled@.len() == i,
            forall|a: T, b: T, fraction: F| call_requires(mix, (a, b, fraction)),
            forall|k: int| 0 <= k < grid@.len() ==> (#[trigger] grid@[k]).0 < usize::MAX,
            forall|k: int|
                0 <= k < i ==> interpolates(
                    samples@,
                    grid@[k].0 as int,
                    grid@[k].1,
                    mix,
                    #[trigger] resampled@[k],
                ),
        decreases grid@.len() - i,
    {
        let (index, fraction): (usize, F) = grid[i];
        let sample: T = if index + 1 < samples.len() {
            mix(samples[index], samples[index + 1], fraction)
        } else {
            samples[samples.len() - 1]
        };
        resampled.push(sample);
        i = i + 1;
    }
    resampled
}

/// A position that has a neighbour on either side gives what `mix` makes of exactly these two
/// neighbours, the earlier one first, and what is left of the position. A position without a later
/// neighbour gives the last sample.
pub proof fn law_neighbours_are_mixed<T: Copy, F: Copy, M: Fn(T, T, F) -> T>(
    samples: &[T],
    from_rate: u32,
    to_rate: u32,
    grid: &[(usize, F)],
    mix: M,
    resampled: Vec<T>,
    i: int,
)
    requires
        call_ensures(
            resample_linear::<T, F, M>,
            (samples, from_rate, to_rate, grid, mix),
            resampled,
        ),
        from_rate != to_rate,
        samples@.len() > 0,
        0 <= i < grid@.len(),
    ensures
        resampled@.len() == grid@.len(),
        grid@[i].0 + 1 < samples@.len() ==> call_ensures(
            mix,
            (samples@[grid@[i].0 as int], samples@[grid@[i].0 + 1], grid@[i].1),
            resampled@[i],
        ),
        grid@[i].0 + 1 >= samples@.len() ==> resampled@[i] == samples@[samples@.len() - 1],
{
    assert(interpolates(samples@, grid@[i].0 as int, grid@[i].1, mix, resampled@[i]));
}

/// Audio that has the rate already is returned sample for sample, and so is empty audio.
pub proof fn law_right_rate_is_left_alone<T: Copy, F: Copy, M: Fn(T, T, F) -> T>(
    samples: &[T],
    from_rate: u32,
    to_rate: u32,
    grid: &[(usize, F)],
    mix: M,
    resampled: Vec<T>,
)
    requires
        call_ensures(
            resample_linear::<T, F, M>,
            (samples, from_rate, to_rate, grid, mix),
            resampled,
        ),
        from_rate == to_rate || samples@.len() == 0,
    ensures
        resampled@.len() == samples@.len(),
        forall|i: int| 0 <= i < samples@.len() ==> resampled@[i] == #[trigger] samples@[i],
{
}

/// Resampling keeps a straight line straight. Let `level` measure samples, and let `part` measure
/// fractions in units of which there are `one` between two neighbours. If `mix` interpolates, then of
/// audio that starts at `base` and rises by `slope` with each sample, a position between two
/// samples gives what the line has there.
pub proof fn law_line_stays_a_line<T: Copy, F: Copy, M: Fn(T, T, F) -> T>(
    samples: &[T],
    from_rate: u32,
    to_rate: u32,
    grid: &[(usize, F)],
    mix: M,
    resampled: Vec<T>,
    i: int,
    level: spec_fn(T) -> int,
    part: spec_fn(F) -> int,
    one: int,
    base: int,
    slope: int,
)
    requires
        call_ensures(
            resample_linear::<T, F, M>,
            (samples, from_rate, to_rate, grid, mix),
            resampled,
        ),
        from_rate != to_rate,
        0 <= i < grid@.len(),
        grid@[i].0 + 1 < samples@.len(),
        forall|a: T, b: T, f: F, mixed: T| #[trigger]
            call_ensures(mix, (a, b, f), mixed) ==> one * level(mixed) == (one - part(f)) * level(a)
                + part(f) * level(b),
        forall|k: int| 0 <= k < samples@.len() ==> level(#[trigger] samples@[k]) == base + slope * k,
    ensures
        one * level(resampled@[i]) == one * base + slope * (one * grid@[i].0 + part(grid@[i].1)),
{
    law_neighbours_are_mixed(samples, from_rate, to_rate, grid, mix, resampled, i);
    let k = grid@[i].0 as int;
    let p = part(grid@[i].1);
    let a = level(samples@[k]);
    let b = level(samples@[k + 1]);
    assert(one * level(resampled@[i]) == (one - p) * a + p * b);
    let rise = slope * k;
    assert(b == a + slope) by (nonlinear_arith)
        requires
            a == base + slope * k,
            b == base + slope * (k + 1),
    ;
    assert((one - p) * a + p * b == one * a + p * slope) by (nonlinear_arith)
        requires
            b == a + slope,
    ;
    assert(one * a == one * base + one * rise) by (nonlinear_arith)
        requires
            a == base + rise,
    ;
    assert(slope * (one * k + p) == one * rise + p * slope) by (nonlinear_arith)
        requires
            rise == slope * k,
    ;
}

} // verus!
