//! Sample-rate policy: which hardware rate serves a source rate, and what a
//! device's advertised rate ranges allow.

use vstd::prelude::*;
use crate::types::{STANDARD_RATES, standard_rates_seq};

verus! {

/// Rate used when a device advertises nothing usable.
pub const FALLBACK_RATE: u32 = 44100;

/// The rate chosen for `source` among `s`: an exact match, else the smallest
/// rate at or above it, else the largest rate, else the fallback rate.
pub open spec fn is_best_rate(source: u32, s: Seq<u32>, r: u32) -> bool {
    if s.len() == 0 {
        r == FALLBACK_RATE
    } else if s.contains(source) {
        r == source
    } else if exists|i: int| 0 <= i < s.len() && s[i] >= source {
        &&& s.contains(r)
        &&& r >= source
        &&& forall|i: int| 0 <= i < s.len() && s[i] >= source ==> r <= s[i]
    } else {
        &&& s.contains(r)
        &&& forall|i: int| 0 <= i < s.len() ==> s[i] <= r
    }
}

/// Picks the supported rate that best serves `source_rate`.
pub fn find_best_supported_rate(source_rate: u32, supported_rates: &[u32]) -> (r: u32)
    ensures
        is_best_rate(source_rate, supported_rates@, r),
{
    let n = supported_rates.len();
    if n == 0 {
        return FALLBACK_RATE;
    }
    let mut best_ge: Option<u32> = None;
    let mut max: u32 = supported_rates[0];
    let mut i: usize = 0;
    while i < n
        invariant
            n == supported_rates@.len(),
            n > 0,
            0 <= i <= n,
            forall|j: int| 0 <= j < i ==> supported_rates@[j] != source_rate,
            supported_rates@.contains(max),
            forall|j: int| 0 <= j < i ==> supported_rates@[j] <= max,
            match best_ge {
                None => forall|j: int| 0 <= j < i ==> supported_rates@[j] < source_rate,
                Some(b) => {
                    &&& supported_rates@.contains(b)
                    &&& b >= source_rate
                    &&& forall|j: int|
                        0 <= j < i && supported_rates@[j] >= source_rate ==> b <= supported_rates@[j]
                },
            },
        decreases n - i,
    {
        let x = supported_rates[i];
        if x == source_rate {
            return source_rate;
        }
        if x > max {
            max = x;
        }
        if x >= source_rate {
            match best_ge {
                None => {
                    best_ge = Some(x);
                },
                Some(b) => {
                    if x < b {
                        best_ge = Some(x);
                    }
                },
            }
        }
        i = i + 1;
    }
    match best_ge {
        Some(b) => b,
        None => max,
    }
}

/// Whether some range `(min, max)` of `ranges` holds `rate`.
pub open spec fn in_some_range(rate: u32, ranges: Seq<(u32, u32)>) -> bool {
    exists|i: int| 0 <= i < ranges.len() && ranges[i].0 <= rate && rate <= ranges[i].1
}

pub fn rate_in_ranges(rate: u32, ranges: &Vec<(u32, u32)>) -> (r: bool)
    ensures
        r == in_some_range(rate, ranges@),
{
    let mut i: usize = 0;
    while i < ranges.len()
        invariant
            0 <= i <= ranges@.len(),
            forall|j: int| 0 <= j < i ==> !(ranges@[j].0 <= rate && rate <= ranges@[j].1),
        decreases ranges@.len() - i,
    {
        let (lo, hi) = ranges[i];
        if lo <= rate && rate <= hi {
            return true;
        }
        i = i + 1;
    }
    false
}

/// Strictly ascending.
pub open spec fn ascending(s: Seq<u32>) -> bool {
    forall|i: int, j: int| 0 <= i < j < s.len() ==> s[i] < s[j]
}

/// The standard rates that fall in one of `ranges`, ascending and without
/// repeats.
pub fn standard_rates_in_ranges(ranges: &Vec<(u32, u32)>) -> (r: Vec<u32>)
    ensures
        ascending(r@),
        forall|x: u32| r@.contains(x) <==> (standard_rates_seq().contains(x) && in_some_range(x, ranges@)),
{
    let rates = STANDARD_RATES;
    let mut out: Vec<u32> = Vec::new();
    let mut i: usize = 0;
    while i < 8
        invariant
            0 <= i <= 8,
            rates@ == standard_rates_seq(),
            ascending(out@),
            forall|k: int| 0 <= k < out@.len() ==> out@[k] < (if i < 8 { rates@[i as int] } else { 400000u32 }),
            forall|x: u32| out@.contains(x) <==> (exists|j: int| 0 <= j < i && rates@[j] == x && in_some_range(x, ranges@)),
        decreases 8 - i,
    {
        let x = rates[i];
        let ghost prev = out@;
        if rate_in_ranges(x, ranges) {
            out.push(x);
        }
        proof {
            assert forall|y: u32| out@.contains(y) <==> (exists|j: int| 0 <= j < i + 1 && rates@[j] == y && in_some_range(y, ranges@)) by {
                if out@.contains(y) {
                    let k = choose|k: int| 0 <= k < out@.len() && out@[k] == y;
                    if k < prev.len() {
                        assert(prev[k] == y);
                        assert(prev.contains(y));
                    } else {
                        assert(rates@[i as int] == y);
                    }
                }
                if exists|j: int| 0 <= j < i + 1 && rates@[j] == y && in_some_range(y, ranges@) {
                    let j = choose|j: int| 0 <= j < i + 1 && rates@[j] == y && in_some_range(y, ranges@);
                    if j < i {
                        assert(prev.contains(y));
                        let k = choose|k: int| 0 <= k < prev.len() && prev[k] == y;
                        assert(out@[k] == y);
                    } else {
                        assert(out@[out@.len() - 1] == y);
                    }
                }
            }
        }
        i = i + 1;
    }
    proof {
        assert forall|x: u32| out@.contains(x) <==> (standard_rates_seq().contains(x) && in_some_range(x, ranges@)) by {
            if standard_rates_seq().contains(x) && in_some_range(x, ranges@) {
                let j = choose|j: int| 0 <= j < 8 && standard_rates_seq()[j] == x;
                assert(rates@[j] == x);
            }
        }
    }
    out
}

/// The largest upper bound of `ranges`, or the fallback rate when empty.
pub fn max_range_rate(ranges: &Vec<(u32, u32)>) -> (r: u32)
    ensures
        ranges@.len() == 0 ==> r == FALLBACK_RATE,
        ranges@.len() > 0 ==> (exists|i: int| 0 <= i < ranges@.len() && ranges@[i].1 == r),
        forall|i: int| 0 <= i < ranges@.len() ==> ranges@[i].1 <= r,
{
    if ranges.len() == 0 {
        return FALLBACK_RATE;
    }
    let mut best: u32 = ranges[0].1;
    let mut i: usize = 1;
    while i < ranges.len()
        invariant
            1 <= i <= ranges@.len(),
            exists|k: int| 0 <= k < i && ranges@[k].1 == best,
            forall|k: int| 0 <= k < i ==> ranges@[k].1 <= best,
        decreases ranges@.len() - i,
    {
        if ranges[i].1 > best {
            best = ranges[i].1;
        }
        i = i + 1;
    }
    best
}

} // verus!
