//! The frequency grid: seven days of twenty-four saturating counters, and
//! the largest of them.

use crate::clock::{hour_index, slots_of, weekday_index};
use chrono::NaiveDateTime;
use vstd::prelude::*;

verus! {

/// True of a (day, hour) pair that names a cell of the grid.
pub open spec fn in_grid(day: int, hour: int) -> bool {
    0 <= day < 7 && 0 <= hour < 24
}

/// True when every slot names a cell of the grid.
pub open spec fn slots_in_grid(slots: Seq<(u32, u32)>) -> bool {
    forall|i: int| 0 <= i < slots.len() ==> in_grid((#[trigger] slots[i]).0 as int, slots[i].1 as int)
}

/// How many of the slots fall on the cell (day, hour).
pub open spec fn occurrences(slots: Seq<(u32, u32)>, day: int, hour: int) -> nat
    decreases slots.len(),
{
    if slots.len() == 0 {
        0
    } else {
        let rest = occurrences(slots.drop_last(), day, hour);
        if slots.last().0 == day && slots.last().1 == hour {
            rest + 1
        } else {
            rest
        }
    }
}

/// A count as a cell holds it: clamped at the largest value of a `u8`.
pub open spec fn saturated(count: nat) -> nat {
    if count > 255 {
        255
    } else {
        count
    }
}

/// Commit activity by weekday and hour: a grid of 7x24 saturating counters,
/// the largest counter, and the style in which the grid is drawn.
pub struct Punchcard {
    stats: [[u8; 24]; 7],
    max: u8,
    draw_circles: bool,
}

impl Default for Punchcard {
    /// The grid of no events: every counter at zero, drawn as blocks.
    fn default() -> (card: Self)
        ensures
            card.wf(),
            card.peak() == 0,
            !card.circles(),
            forall|d: int, h: int| in_grid(d, h) ==> #[trigger] card.cell(d, h) == 0,
    {
        Punchcard::empty()
    }
}

impl Punchcard {
    /// The counter of the cell (day, hour).
    pub closed spec fn cell(&self, day: int, hour: int) -> nat {
        self.stats[day][hour] as nat
    }

    /// The recorded maximum, by which intensities are normalised.
    pub closed spec fn peak(&self) -> nat {
        self.max as nat
    }

    /// Whether cells are drawn as holes rather than shaded blocks.
    pub closed spec fn circles(&self) -> bool {
        self.draw_circles
    }

    /// The recorded maximum is the largest counter of the grid: no cell
    /// exceeds it, and unless it is zero some cell reaches it.
    pub open spec fn wf(&self) -> bool {
        &&& forall|d: int, h: int| in_grid(d, h) ==> #[trigger] self.cell(d, h) <= self.peak()
        &&& self.peak() > 0 ==> exists|d: int, h: int| in_grid(d, h) && #[trigger] self.cell(d, h) == self.peak()
    }

    /// Every cell holds the saturated number of slots that fall on it.
    pub open spec fn tallies(&self, slots: Seq<(u32, u32)>) -> bool {
        forall|d: int, h: int| in_grid(d, h) ==> #[trigger] self.cell(d, h) == saturated(occurrences(slots, d, h))
    }

    /// The grid with every counter at zero, drawn as blocks.
    pub fn empty() -> (card: Self)
        ensures
            card.wf(),
            card.peak() == 0,
            !card.circles(),
            forall|d: int, h: int| in_grid(d, h) ==> #[trigger] card.cell(d, h) == 0,
    {
        Punchcard { stats: [[0u8; 24]; 7], max: 0, draw_circles: false }
    }

    /// Counts one more event in the cell (day, hour). The counter saturates,
    /// no other cell changes, and the maximum follows the new counter.
    fn record(&mut self, day: u32, hour: u32)
        requires
            old(self).wf(),
            in_grid(day as int, hour as int),
        ensures
            final(self).wf(),
            final(self).circles() == old(self).circles(),
            forall|d: int, h: int| in_grid(d, h) ==> #[trigger] final(self).cell(d, h) == if d == day && h == hour {
                saturated(old(self).cell(d, h) + 1)
            } else {
                old(self).cell(d, h)
            },
            final(self).peak() == if saturated(old(self).cell(day as int, hour as int) + 1) > old(self).peak() {
                saturated(old(self).cell(day as int, hour as int) + 1)
            } else {
                old(self).peak()
            },
            final(self).peak() > 0,
    {
        let d = day as usize;
        let h = hour as usize;
        let next: u8 = self.stats[d][h].saturating_add(1);
        self.stats[d][h] = next;
        if next > self.max {
            self.max = next;
        }
        proof {
            assert(self.cell(day as int, hour as int) == next);
            assert forall|d: int, h: int| in_grid(d, h) implies #[trigger] self.cell(d, h) <= self.peak() by {
                assert(old(self).cell(d, h) <= old(self).peak());
            }
            if self.max != next {
                let (pd, ph) = choose|pd: int, ph: int|
                    in_grid(pd, ph) && #[trigger] old(self).cell(pd, ph) == old(self).peak();
                assert(self.cell(pd, ph) == self.peak());
            }
        }
    }

    /// Builds the grid from the cells that the events fall into, given as
    /// (day, hour) pairs with Monday as day 0.
    pub fn tally(slots: &Vec<(u32, u32)>) -> (card: Self)
        requires
            slots_in_grid(slots@),
        ensures
            card.wf(),
            card.tallies(slots@),
            !card.circles(),
            card.peak() == 0 <==> slots@.len() == 0,
    {
        let mut card = Self::empty();
        let mut i: usize = 0;
        while i < slots.len()
            invariant
                i <= slots.len(),
                slots_in_grid(slots@),
                card.wf(),
                card.tallies(slots@.take(i as int)),
                !card.circles(),
                card.peak() == 0 <==> i == 0,
            decreases slots.len() - i,
        {
            let (day, hour) = slots[i];
            proof {
                assert(slots@.take(i + 1).drop_last() =~= slots@.take(i as int));
                assert(slots@.take(i + 1).last() == slots@[i as int]);
            }
            card.record(day, hour);
            i = i + 1;
        }
        proof {
            assert(slots@.take(i as int) =~= slots@);
        }
        card
    }

    /// Builds the grid from wall-clock timestamps: each one counts in the
    /// cell of its weekday and hour.
    pub fn new(timestamps: Vec<NaiveDateTime>) -> (card: Self)
        ensures
            card.wf(),
            card.tallies(slots_of(timestamps@)),
            !card.circles(),
            card.peak() == 0 <==> timestamps@.len() == 0,
    {
        let mut slots: Vec<(u32, u32)> = Vec::new();
        let mut i: usize = 0;
        while i < timestamps.len()
            invariant
                i <= timestamps.len(),
                slots@ =~= slots_of(timestamps@).take(i as int),
                slots_in_grid(slots@),
            decreases timestamps.len() - i,
        {
            let day = weekday_index(&timestamps[i]);
            let hour = hour_index(&timestamps[i]);
            slots.push((day, hour));
            i = i + 1;
        }
        proof {
            assert(slots@ =~= slots_of(timestamps@));
        }
        Self::tally(&slots)
    }

    /// Chooses between holes (`true`) and shaded blocks (`false`).
    pub fn draw_circles(&mut self, draw_circles: bool)
        ensures
            final(self).circles() == draw_circles,
            final(self).peak() == old(self).peak(),
            forall|d: int, h: int| final(self).cell(d, h) == old(self).cell(d, h),
            old(self).wf() ==> final(self).wf(),
    {
        self.draw_circles = draw_circles;
        proof {
            if old(self).wf() {
                assert forall|d: int, h: int| in_grid(d, h) implies #[trigger] self.cell(d, h) <= self.peak() by {
                    assert(old(self).cell(d, h) <= old(self).peak());
                }
                if self.peak() > 0 {
                    let (pd, ph) = choose|pd: int, ph: int|
                        in_grid(pd, ph) && #[trigger] old(self).cell(pd, ph) == old(self).peak();
                    assert(self.cell(pd, ph) == self.peak());
                }
            }
        }
    }

    /// The counter of the cell (day, hour).
    pub fn count(&self, day: usize, hour: usize) -> (n: u8)
        requires
            in_grid(day as int, hour as int),
        ensures
            n == self.cell(day as int, hour as int),
    {
        self.stats[day][hour]
    }

    /// The recorded maximum.
    pub fn max(&self) -> (n: u8)
        ensures
            n == self.peak(),
    {
        self.max
    }

    /// Whether cells are drawn as holes.
    pub fn circles_enabled(&self) -> (on: bool)
        ensures
            on == self.circles(),
    {
        self.draw_circles
    }
}

} // verus!
