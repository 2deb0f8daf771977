//! Spans of time as whole numbers of nanoseconds.

use vstd::prelude::*;
use std::time::Duration;

verus! {

/// Nanoseconds in a second.
pub const NANOS_PER_SEC: u64 = 1_000_000_000;

/// The length of a `Duration` in nanoseconds.
pub uninterp spec fn duration_nanos(d: Duration) -> nat;

/// The longest span that a `Duration` can hold, in nanoseconds.
pub open spec fn max_duration_nanos() -> nat {
    (u64::MAX as nat) * 1_000_000_000 + 999_999_999
}

/// `Duration::new`, which std documents to hold `secs` seconds and `nanos`
/// nanoseconds; with `nanos` under a second nothing is carried over.
pub assume_specification[ Duration::new ](secs: u64, nanos: u32) -> (d: Duration)
    requires
        nanos < 1_000_000_000,
    ensures
        duration_nanos(d) == secs as nat * 1_000_000_000 + nanos as nat,
;

/// `Duration::from_secs`: a span of `secs` whole seconds.
pub assume_specification[ Duration::from_secs ](secs: u64) -> (d: Duration)
    ensures
        duration_nanos(d) == secs as nat * 1_000_000_000,
;

/// `Duration::from_millis`: a span of `millis` milliseconds.
pub assume_specification[ Duration::from_millis ](millis: u64) -> (d: Duration)
    ensures
        duration_nanos(d) == millis as nat * 1_000_000,
;

/// `Duration::as_secs`: the whole seconds of the span.
pub assume_specification[ Duration::as_secs ](d: &Duration) -> (secs: u64)
    ensures
        secs as nat == duration_nanos(*d) / 1_000_000_000,
;

/// `Duration::subsec_nanos`: what the span holds beyond its whole seconds.
pub assume_specification[ Duration::subsec_nanos ](d: &Duration) -> (nanos: u32)
    ensures
        nanos as nat == duration_nanos(*d) % 1_000_000_000,
;

/// `Clone` of `Duration`, a `Copy` type: the copy is the value itself.
pub assume_specification[ <Duration as Clone>::clone ](d: &Duration) -> (r: Duration)
    ensures
        r == *d,
;

/// The length of a span in nanoseconds.
pub fn to_nanos(d: Duration) -> (n: u128)
    ensures
        n == duration_nanos(d),
        n <= max_duration_nanos(),
{
    let secs = d.as_secs();
    let nanos = d.subsec_nanos();
    let n = secs as u128 * 1_000_000_000u128 + nanos as u128;
    assert(n == duration_nanos(d)) by {
        let t = duration_nanos(d);
        assert(t == 1_000_000_000 * (t / 1_000_000_000) + t % 1_000_000_000) by {
            vstd::arithmetic::div_mod::lemma_fundamental_div_mod(t as int, 1_000_000_000);
        }
    }
    n
}

/// The span of `n` nanoseconds, or the longest span where `n` is beyond it.
pub fn from_nanos(n: u128) -> (d: Duration)
    ensures
        duration_nanos(d) == if n <= max_duration_nanos() {
            n as nat
        } else {
            max_duration_nanos()
        },
{
    let secs = n / 1_000_000_000u128;
    let nanos = (n % 1_000_000_000u128) as u32;
    if secs > u64::MAX as u128 {
        Duration::new(u64::MAX, 999_999_999)
    } else {
        Duration::new(secs as u64, nanos)
    }
}

} // verus!
