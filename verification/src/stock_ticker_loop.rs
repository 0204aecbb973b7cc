//! Scheduling decisions for the ticker loop.
//!
//! The loop itself — channels, the worker pool, sleeps — lives in the
//! surrounding binary.  This module holds the decisions it makes: the
//! market-calendar gate, and the admission-control pacer that keeps the
//! dispatch rate under the broker's request-rate ceiling.

use vstd::prelude::*;

use vstd::arithmetic::div_mod::{
    lemma_add_mod_noop, lemma_mod_bound, lemma_mod_self_0, lemma_mod_twice, lemma_small_mod,
};

use crate::clock::{clock_now, ClockReading};

verus! {

/// Weekdays (Monday through Friday) are market days.
pub open spec fn spec_market_day(weekday: u8) -> bool {
    weekday <= 4
}

/// The market-calendar gate on a given day of the week.
pub fn market_day(weekday: u8) -> (r: bool)
    ensures
        r == spec_market_day(weekday),
{
    weekday <= 4
}

/// Read the clock and decide whether this reading falls on a market day,
/// returning the reading alongside the decision.
pub fn time_check() -> (r: (bool, ClockReading))
    ensures
        r.0 == spec_market_day(r.1.weekday_from_monday),
        r.1.weekday_from_monday <= 6,
        r.1.hour <= 23,
{
    let reading = clock_now();
    (market_day(reading.weekday_from_monday), reading)
}

/// Admission control: the dispatcher asks the pacer before every work item,
/// and must pause whenever `limit` items have gone out since the last
/// pause.  This keeps bursts toward the rate-limited broker bounded.
pub struct Pacer {
    /// How many items may be dispatched between pauses.
    pub limit: u32,
    /// Items dispatched since the last pause.
    pub created: u32,
}

impl Pacer {
    pub open spec fn wf(self) -> bool {
        0 < self.limit && self.created <= self.limit
    }

    pub fn new(limit: u32) -> (p: Pacer)
        requires
            0 < limit,
        ensures
            p.wf(),
            p == (Pacer { limit, created: 0u32 }),
    {
        Pacer { limit, created: 0 }
    }

    /// Ask to dispatch one more item.  Returns whether the dispatcher must
    /// pause first: exactly when `limit` items have gone out since the last
    /// pause.  Either way the item is then dispatched and counted.
    pub fn step(&mut self) -> (pause: bool)
        requires
            old(self).wf(),
        ensures
            final(self).wf(),
            final(self).limit == old(self).limit,
            pause == (old(self).created == old(self).limit),
            final(self).created == if pause {
                1u32
            } else {
                (old(self).created + 1) as u32
            },
    {
        if self.created >= self.limit {
            self.created = 1;
            true
        } else {
            self.created = self.created + 1;
            false
        }
    }
}

/// The pacer's counter after the first `k` items of a batch dispatched from
/// a fresh pacer.
pub open spec fn spec_pacer_counter(k: nat, limit: nat) -> nat
    decreases k,
{
    if k == 0 {
        0
    } else if spec_pacer_counter((k - 1) as nat, limit) == limit {
        1
    } else {
        spec_pacer_counter((k - 1) as nat, limit) + 1
    }
}

/// Whether the dispatcher pauses before item `k` of a batch dispatched from
/// a fresh pacer (this is the condition [`Pacer::step`] reports).
pub open spec fn spec_pause_before(k: nat, limit: nat) -> bool {
    spec_pacer_counter(k, limit) == limit
}

/// Admission control: dispatching a batch from a fresh pacer pauses before
/// item `k` exactly when `k` is a positive multiple of the pacing window —
/// so no more than `limit` items are ever dispatched without a pause, and
/// in particular a batch pauses for the first time after exactly `limit`
/// dispatches.
pub proof fn lemma_admission_control(k: nat, limit: nat)
    requires
        0 < limit,
    ensures
        spec_pacer_counter(k, limit) == (if k == 0 {
            0
        } else {
            ((k - 1) as nat % limit) + 1
        }),
        spec_pause_before(k, limit) == (k > 0 && k % limit == 0),
    decreases k,
{
    if k != 0 {
        let j = (k - 1) as nat;
        lemma_admission_control(j, limit);
        if j == 0 {
            lemma_small_mod(0nat, limit);
        } else {
            lemma_mod_succ((j - 1) as nat, limit);
        }
        // Relate the counter formula to the pause condition.
        lemma_mod_succ(j, limit);
        lemma_mod_bound(j as int, limit as int);
    }
}

/// `(j + 1) % m` advances cyclically from `j % m`.
proof fn lemma_mod_succ(j: nat, m: nat)
    requires
        0 < m,
    ensures
        (j + 1) % m == (if j % m + 1 == m {
            0nat
        } else {
            j % m + 1
        }),
{
    lemma_mod_bound(j as int, m as int);
    lemma_add_mod_noop(j as int, 1int, m as int);
    if m == 1 {
        lemma_mod_self_0(1int);
        lemma_mod_twice(j as int, 1int);
    } else {
        lemma_small_mod(1nat, m);
        let a = j % m;
        if a + 1 == m {
            lemma_mod_self_0(m as int);
        } else {
            lemma_small_mod((a + 1) as nat, m);
        }
    }
}

} // verus!
