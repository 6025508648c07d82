//! The sample rates that 60db synthesizes at.
use vstd::prelude::*;

verus! {

/// Sample rates that 60db's LINEAR16 encoding supports, in hertz.
pub const SUPPORTED_RATES: [u32; 4] = [8000, 16000, 24000, 48000];

/// `rate` is one that 60db supports.
pub open spec fn supported(rate: u32) -> bool {
    SUPPORTED_RATES@.contains(rate)
}

/// How far apart two rates are.
pub open spec fn distance(a: u32, b: u32) -> nat {
    if a >= b {
        (a - b) as nat
    } else {
        (b - a) as nat
    }
}

/// The supported rate closest to `target`; of two that are equally close, the lower one.
pub open spec fn nearest_rate(target: u32) -> u32 {
    if target <= 12000 {
        8000
    } else if target <= 20000 {
        16000
    } else if target <= 36000 {
        24000
    } else {
        48000
    }
}

proof fn lemma_supported(rate: u32)
    ensures
        supported(rate) <==> rate == 8000 || rate == 16000 || rate == 24000 || rate == 48000,
{
    let rates = SUPPORTED_RATES@;
    assert(rates =~= seq![8000u32, 16000, 24000, 48000]);
    assert(rates[0] == 8000 && rates[1] == 16000 && rates[2] == 24000 && rates[3] == 48000);
}

/// No supported rate is closer to a target than its nearest rate, and none that is as close is
/// lower.
pub proof fn law_nearest_rate_is_closest(target: u32, other: u32)
    requires
        supported(other),
    ensures
        distance(nearest_rate(target), target) <= distance(other, target),
        distance(nearest_rate(target), target) == distance(other, target) ==> nearest_rate(target)
            <= other,
{
    lemma_supported(other);
}

/// The nearest rate is always one that 60db supports.
pub proof fn law_nearest_rate_is_supported(target: u32)
    ensures
        supported(nearest_rate(target)),
{
    lemma_supported(nearest_rate(target));
}

/// A rate is its own nearest rate exactly if it is supported.
pub proof fn law_supported_rate_is_kept(rate: u32)
    ensures
        nearest_rate(rate) == rate <==> supported(rate),
{
    lemma_supported(rate);
}

/// A higher target never gets a lower rate.
pub proof fn law_nearest_rate_is_monotone(low: u32, high: u32)
    requires
        low <= high,
    ensures
        nearest_rate(low) <= nearest_rate(high),
{
}

/// How far apart two rates are.
fn gap(a: u32, b: u32) -> (hertz: u32)
    ensures
        hertz == distance(a, b),
{
    if a >= b {
        a - b
    } else {
        b - a
    }
}

/// Pick the supported rate closest to `target`.
pub fn nearest_supported_rate(target: u32) -> (rate: u32)
    ensures
        rate == nearest_rate(target),
        supported(rate),
        forall|other: u32| #[trigger]
            supported(other) ==> distance(rate, target) <= distance(other, target),
{
    let rates = SUPPORTED_RATES;
    let mut best: u32 = rates[0];
    let mut i: usize = 1;
    while i < 4
        invariant
            rates == SUPPORTED_RATES,
            1 <= i <= 4,
            exists|j: int| 0 <= j < i && best == rates[j],
            forall|j: int|
                0 <= j < i ==> distance(best, target) <= distance(#[trigger] rates[j], target),
            forall|j: int|
                0 <= j < i && distance(best, target) == distance(#[trigger] rates[j], target)
                    ==> best <= rates[j],
        decreases 4 - i,
    {
        let rate: u32 = rates[i];
        if gap(rate, target) < gap(best, target) {
            best = rate;
        }
        i = i + 1;
    }
    proof {
        lemma_supported(best);
        assert(rates[0] == 8000 && rates[1] == 16000 && rates[2] == 24000 && rates[3] == 48000);
        assert forall|other: u32| #[trigger] supported(other) implies distance(best, target)
            <= distance(other, target) by {
            law_nearest_rate_is_closest(target, other);
        }
    }
    best
}

/// 60db supports 8, 16, 24 and 48 kilohertz, and no other rate.
pub proof fn law_four_rates_are_supported(rate: u32)
    ensures
        supported(rate) <==> rate == 8000 || rate == 16000 || rate == 24000 || rate == 48000,
{
    lemma_supported(rate);
}

/// The rate picked for a target is one of the four that 60db supports. None of the four is closer to
/// the target, and none that is as close is lower.
pub proof fn law_closest_rate_is_picked(target: u32, rate: u32, other: u32)
    requires
        call_ensures(nearest_supported_rate, (target,), rate),
        other == 8000 || other == 16000 || other == 24000 || other == 48000,
    ensures
        rate == 8000 || rate == 16000 || rate == 24000 || rate == 48000,
        (if rate >= target { rate - target } else { target - rate }) <= (if other >= target {
            other - target
        } else {
            target - other
        }),
        (if rate >= target { rate - target } else { target - rate }) == (if other >= target {
            other - target
        } else {
            target - other
        }) ==> rate <= other,
{
    lemma_supported(other);
    lemma_supported(rate);
    law_nearest_rate_is_closest(target, other);
}

} // verus!
