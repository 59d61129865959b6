//! The speed policy: a discrete step table maps a measured temperature to a
//! fan speed. Among all entries whose temperature key is at or below the
//! measured temperature, the one with the greatest key wins; with no
//! qualifying entry the fan is told to stop.

use vstd::prelude::*;

verus! {

use crate::MAX_SPEED;

/// A step table is well formed when every speed is within range and the
/// temperature keys are pairwise distinct, so the winning entry is unique.
pub open spec fn table_wf(entries: Seq<(u8, u8)>) -> bool {
    &&& forall|i: int| 0 <= i < entries.len() ==> (#[trigger] entries[i]).1 <= MAX_SPEED
    &&& forall|i: int, j: int|
        0 <= i < j < entries.len() ==> (#[trigger] entries[i]).0 != (#[trigger] entries[j]).0
}

/// The qualifying entry with the greatest temperature key at or below `t`,
/// or `None` when no entry qualifies.
pub open spec fn best_entry(entries: Seq<(u8, u8)>, t: u8) -> Option<(u8, u8)>
    decreases entries.len(),
{
    if entries.len() == 0 {
        None
    } else {
        let e = entries.last();
        let rest = best_entry(entries.drop_last(), t);
        if e.0 <= t {
            match rest {
                Option::None => Option::Some(e),
                Option::Some(b) => if e.0 >= b.0 {
                    Option::Some(e)
                } else {
                    Option::Some(b)
                },
            }
        } else {
            rest
        }
    }
}

/// The target speed for temperature `t`: the speed of the winning entry, or 0
/// when no entry has a key at or below `t`.
pub open spec fn decide_spec(entries: Seq<(u8, u8)>, t: u8) -> u8 {
    match best_entry(entries, t) {
        Option::None => 0,
        Option::Some(b) => b.1,
    }
}

/// The step rule: every threshold entry is considered, whatever its position,
/// and the greatest key at or below `current_temp` decides. The commanded
/// speed held by the caller plays no part in the choice; it only feeds the
/// caller's own hysteresis rule.
#[allow(unused_variables)]
pub fn decide(current_temp: u8, thresholds: &Vec<(u8, u8)>, current_speed: u8) -> (target: u8)
    ensures
        target == decide_spec(thresholds@, current_temp),
{
    let mut best: Option<(u8, u8)> = None;
    let mut i: usize = 0;
    while i < thresholds.len()
        invariant
            i <= thresholds.len(),
            best == best_entry(thresholds@.take(i as int), current_temp),
        decreases thresholds.len() - i,
    {
        let e: (u8, u8) = thresholds[i];
        proof {
            assert(thresholds@.take(i + 1).drop_last() =~= thresholds@.take(i as int));
            assert(thresholds@.take(i + 1).last() == thresholds@[i as int]);
        }
        if e.0 <= current_temp {
            best = match best {
                None => Some(e),
                Some(b) => if e.0 >= b.0 {
                    Some(e)
                } else {
                    Some(b)
                },
            };
        }
        i = i + 1;
    }
    proof {
        assert(thresholds@.take(thresholds.len() as int) =~= thresholds@);
    }
    match best {
        None => 0,
        Some(b) => b.1,
    }
}

/// The choice really is the "highest satisfied step": the winning entry is in
/// the table, qualifies, and no qualifying entry has a greater key; and no
/// entry wins exactly when no key is at or below `t`.
pub proof fn lemma_best_entry_greatest(entries: Seq<(u8, u8)>, t: u8)
    ensures
        best_entry(entries, t) is None <==> (forall|i: int|
            0 <= i < entries.len() ==> (#[trigger] entries[i]).0 > t),
        best_entry(entries, t) matches Some(b) ==> {
            &&& entries.contains(b)
            &&& b.0 <= t
            &&& forall|i: int|
                0 <= i < entries.len() && (#[trigger] entries[i]).0 <= t ==> entries[i].0 <= b.0
        },
    decreases entries.len(),
{
    if entries.len() > 0 {
        let prefix = entries.drop_last();
        let e = entries.last();
        lemma_best_entry_greatest(prefix, t);
        assert(forall|i: int| 0 <= i < prefix.len() ==> prefix[i] == #[trigger] entries[i]);
        match best_entry(prefix, t) {
            Option::Some(b) => {
                let w = choose|i: int| 0 <= i < prefix.len() && prefix[i] == b;
                assert(entries[w] == b);
            },
            Option::None => {},
        }
    }
}

/// A well-formed table never asks for a speed above the range limit.
pub proof fn lemma_decide_spec_bound(entries: Seq<(u8, u8)>, t: u8)
    requires
        table_wf(entries),
    ensures
        decide_spec(entries, t) <= MAX_SPEED,
{
    lemma_best_entry_greatest(entries, t);
    match best_entry(entries, t) {
        Option::Some(b) => {
            let w = choose|i: int| 0 <= i < entries.len() && entries[i] == b;
            assert(entries[w].1 <= MAX_SPEED);
        },
        Option::None => {},
    }
}

} // verus!
