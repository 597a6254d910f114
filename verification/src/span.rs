//! How many samples fit into a span of time at a given sample rate.

use std::time::Duration;
use vstd::prelude::*;

verus! {

/// Nanoseconds in one second.
pub const NANOS_PER_SECOND: u32 = 1_000_000_000;

/// The whole seconds of a duration, as `Duration::as_secs` reports them.
pub uninterp spec fn whole_seconds(d: Duration) -> u64;

/// The part of a duration below one second, in nanoseconds, as
/// `Duration::subsec_nanos` reports it.
pub uninterp spec fn subsecond_nanos(d: Duration) -> u32;

/// `Duration::as_secs`: the number of whole seconds the duration holds. Trusted: the
/// result is a function of the duration alone.
pub assume_specification[ Duration::as_secs ](d: &Duration) -> (secs: u64)
    ensures
        secs == whole_seconds(*d),
;

/// `Duration::subsec_nanos`: the fractional part of the duration in nanoseconds.
/// Trusted: the result is a function of the duration alone and always lies below one
/// second.
pub assume_specification[ Duration::subsec_nanos ](d: &Duration) -> (nanos: u32)
    ensures
        nanos == subsecond_nanos(*d),
        nanos < NANOS_PER_SECOND,
;

/// The number of whole samples in `secs` seconds plus `nanos` nanoseconds at `rate`
/// samples per second: the product, rounded toward zero.
pub open spec fn span_samples(secs: nat, nanos: nat, rate: nat) -> nat {
    ((secs * 1_000_000_000 + nanos) * rate) / 1_000_000_000
}

/// The count is the floor of the span's length times the rate: with both sides in
/// billionths of a sample, the count does not exceed the product, and one more would.
pub proof fn lemma_span_is_floor(secs: nat, nanos: nat, rate: nat)
    ensures
        span_samples(secs, nanos, rate) * 1_000_000_000 <= (secs * 1_000_000_000 + nanos) * rate,
        (secs * 1_000_000_000 + nanos) * rate < (span_samples(secs, nanos, rate) + 1)
            * 1_000_000_000,
{
    let product: int = ((secs * 1_000_000_000 + nanos) * rate) as int;
    assert(product == 1_000_000_000 * (product / 1_000_000_000) + product % 1_000_000_000) by {
        vstd::arithmetic::div_mod::lemma_fundamental_div_mod(product, 1_000_000_000);
    }
    assert(0 <= product % 1_000_000_000 < 1_000_000_000);
}

/// A span of no length holds no sample, and neither does any span at rate zero.
pub proof fn lemma_empty_span(secs: nat, nanos: nat, rate: nat)
    ensures
        span_samples(0, 0, rate) == 0,
        span_samples(secs, nanos, 0) == 0,
{
    assert((secs * 1_000_000_000 + nanos) * 0 == 0) by (nonlinear_arith);
    assert((0 * 1_000_000_000 + 0) * rate == 0) by (nonlinear_arith);
}

/// `n`, or the largest `usize` where `n` does not fit.
pub open spec fn saturated(n: nat) -> usize {
    if n > usize::MAX {
        usize::MAX
    } else {
        n as usize
    }
}

/// Counts the whole samples in a span of `secs` seconds and `nanos` nanoseconds at
/// `rate` samples per second. A count too large for a `usize` is reported as
/// `usize::MAX`.
pub fn samples_in(secs: u64, nanos: u32, rate: u32) -> (count: usize)
    ensures
        count == saturated(span_samples(secs as nat, nanos as nat, rate as nat)),
{
    let whole: u128 = secs as u128;
    let part: u128 = nanos as u128;
    let per_second: u128 = rate as u128;
    assert(whole * 1_000_000_000 <= 0xffff_ffff_ffff_ffff * 1_000_000_000) by (nonlinear_arith)
        requires
            whole <= 0xffff_ffff_ffff_ffff,
    ;
    let total: u128 = whole * 1_000_000_000 + part;
    assert(total * per_second <= 0x3b9a_ca00_ffff_ffff_ffff_ffff * 0xffff_ffff)
        by (nonlinear_arith)
        requires
            total <= 0x3b9a_ca00_ffff_ffff_ffff_ffff,
            per_second <= 0xffff_ffff,
    ;
    let scaled: u128 = total * per_second;
    let count: u128 = scaled / 1_000_000_000;
    if count > usize::MAX as u128 {
        usize::MAX
    } else {
        count as usize
    }
}

/// Counts the whole samples in `duration` at `rate` samples per second.
pub fn samples_spanning(duration: Duration, rate: u32) -> (count: usize)
    ensures
        count == saturated(
            span_samples(
                whole_seconds(duration) as nat,
                subsecond_nanos(duration) as nat,
                rate as nat,
            ),
        ),
{
    samples_in(duration.as_secs(), duration.subsec_nanos(), rate)
}

} // verus!
