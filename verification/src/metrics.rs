//! Derived metrics: the integer RAM-usage percentage and the aggregate
//! upload/download byte counts over the physical interface set. Rates are
//! kept as byte counts per tick; turning them into an `MB/s` text is the
//! formatting module's business.

use vstd::prelude::*;
use crate::classify::name_in;

verus! {

/// Integer RAM usage percentage: `floor(used * 100 / total)`, and 0 when
/// `total` is 0, so that an empty reading never divides by zero.
pub open spec fn ram_percent(used: int, total: int) -> int {
    if total == 0 {
        0
    } else {
        used * 100 / total
    }
}

/// The RAM percentage actually sampled: a reading that claims more memory in
/// use than the machine has is treated as a failed read and degrades to 0%,
/// like every other failed read.
pub open spec fn ram_percent_checked(used: int, total: int) -> int {
    if used <= total {
        ram_percent(used, total)
    } else {
        0
    }
}

/// Percentage of memory in use, truncated to an integer.
///
/// A reading with `total == 0` degrades to 0% rather than dividing by zero.
pub fn ram_usage_percent(used: u64, total: u64) -> (r: u64)
    requires
        used <= total || total == 0,
    ensures
        r == ram_percent(used as int, total as int),
        r <= 100,
{
    if total == 0 {
        0
    } else {
        let q: u128 = (used as u128) * 100 / (total as u128);
        proof {
            vstd::arithmetic::mul::lemma_mul_inequality(used as int, total as int, 100);
            vstd::arithmetic::div_mod::lemma_div_is_ordered(
                used as int * 100,
                total as int * 100,
                total as int,
            );
            vstd::arithmetic::div_mod::lemma_div_by_multiple(100, total as int);
        }
        q as u64
    }
}

/// The sum of the transmitted-bytes counters of the entries whose interface
/// name lies in `names`.
pub open spec fn sum_tx(counters: Seq<(String, u64, u64)>, names: Seq<String>) -> int
    decreases counters.len(),
{
    if counters.len() == 0 {
        0
    } else {
        sum_tx(counters.drop_last(), names) + if name_in(names, counters.last().0@) {
            counters.last().1 as int
        } else {
            0
        }
    }
}

/// The sum of the received-bytes counters of the entries whose interface
/// name lies in `names`.
pub open spec fn sum_rx(counters: Seq<(String, u64, u64)>, names: Seq<String>) -> int
    decreases counters.len(),
{
    if counters.len() == 0 {
        0
    } else {
        sum_rx(counters.drop_last(), names) + if name_in(names, counters.last().0@) {
            counters.last().2 as int
        } else {
            0
        }
    }
}

/// An entry whose interface name the physical set does not hold contributes
/// nothing to either aggregate: only interfaces of the most recent physical
/// set are summed.
pub proof fn lemma_filtered_out_contributes_nothing(
    counters: Seq<(String, u64, u64)>,
    names: Seq<String>,
    extra: (String, u64, u64),
)
    requires
        !name_in(names, extra.0@),
    ensures
        sum_tx(counters.push(extra), names) == sum_tx(counters, names),
        sum_rx(counters.push(extra), names) == sum_rx(counters, names),
{
    assert(counters.push(extra).drop_last() =~= counters);
}

/// Aggregate upload and download byte counts: the per-interface transmitted
/// and received counters summed over exactly the entries whose name lies in
/// `physical`. Returned as (transmitted, received).
pub fn aggregate_throughput(counters: &Vec<(String, u64, u64)>, physical: &Vec<String>) -> (r: (
    u128,
    u128,
))
    ensures
        r.0 == sum_tx(counters@, physical@),
        r.1 == sum_rx(counters@, physical@),
{
    let mut up: u128 = 0;
    let mut down: u128 = 0;
    let mut i: usize = 0;
    proof {
        assert(counters@.take(0) =~= Seq::<(String, u64, u64)>::empty());
    }
    while i < counters.len()
        invariant
            i <= counters@.len(),
            up == sum_tx(counters@.take(i as int), physical@),
            down == sum_rx(counters@.take(i as int), physical@),
            up <= i * (u64::MAX as int),
            down <= i * (u64::MAX as int),
        decreases counters@.len() - i,
    {
        proof {
            assert(counters@.take(i + 1).drop_last() =~= counters@.take(i as int));
            assert(counters@.take(i + 1).last() == counters@[i as int]);
            assert((i + 1) * (u64::MAX as int) == i * (u64::MAX as int) + u64::MAX as int)
                by (nonlinear_arith);
            assert(i * (u64::MAX as int) + u64::MAX as int <= u128::MAX as int) by {
                assert(i + 1 <= usize::MAX);
                vstd::arithmetic::mul::lemma_mul_inequality(
                    i + 1,
                    0x1_0000_0000_0000_0000,
                    u64::MAX as int,
                );
            }
        }
        let entry = &counters[i];
        if crate::classify::vec_contains_name(physical, &entry.0) {
            up = up + (entry.1 as u128);
            down = down + (entry.2 as u128);
        }
        i = i + 1;
    }
    proof {
        assert(counters@.take(counters@.len() as int) =~= counters@);
    }
    (up, down)
}

} // verus!
