//! What holds of every punchcard, stated over the models of the grid and
//! of its rendering.

use crate::grid::{in_grid, occurrences, slots_in_grid, Punchcard};
use crate::render::{day_label, header, hour_label, hour_labels, joined, row, rows};
use crate::shade::intensity_of;
use vstd::prelude::*;

verus! {

/// The sum of the counters of the first `k` cells, taken row by row.
pub open spec fn total_below(card: Punchcard, k: nat) -> nat
    decreases k,
{
    if k == 0 {
        0
    } else {
        total_below(card, (k - 1) as nat) + card.cell((k - 1) / 24, (k - 1) % 24)
    }
}

/// The sum of all 7x24 counters.
pub open spec fn total(card: Punchcard) -> nat {
    total_below(card, 168)
}

/// How many of the slots fall on one of the first `k` cells, taken row by row.
pub open spec fn landed_below(slots: Seq<(u32, u32)>, k: nat) -> nat
    decreases k,
{
    if k == 0 {
        0
    } else {
        landed_below(slots, (k - 1) as nat) + occurrences(slots, (k - 1) / 24, (k - 1) % 24)
    }
}

proof fn lemma_landed_step(slots: Seq<(u32, u32)>, k: nat)
    requires
        slots.len() > 0,
        in_grid(slots.last().0 as int, slots.last().1 as int),
        k <= 168,
    ensures
        landed_below(slots, k) == landed_below(slots.drop_last(), k) + if slots.last().0 * 24 + slots.last().1 < k {
            1nat
        } else {
            0nat
        },
    decreases k,
{
    if k > 0 {
        lemma_landed_step(slots, (k - 1) as nat);
    }
}

proof fn lemma_landed_none(slots: Seq<(u32, u32)>, k: nat)
    requires
        slots.len() == 0,
    ensures
        landed_below(slots, k) == 0,
    decreases k,
{
    if k > 0 {
        lemma_landed_none(slots, (k - 1) as nat);
    }
}

/// Every slot falls on exactly one cell: over the whole grid the
/// occurrences add up to the number of slots.
pub proof fn lemma_every_slot_lands_once(slots: Seq<(u32, u32)>)
    requires
        slots_in_grid(slots),
    ensures
        landed_below(slots, 168) == slots.len(),
    decreases slots.len(),
{
    if slots.len() == 0 {
        lemma_landed_none(slots, 168);
    } else {
        assert(in_grid(slots[slots.len() - 1].0 as int, slots[slots.len() - 1].1 as int));
        let rest = slots.drop_last();
        assert forall|i: int| 0 <= i < rest.len() implies in_grid((#[trigger] rest[i]).0 as int, rest[i].1 as int) by {
            assert(rest[i] == slots[i]);
        }
        lemma_every_slot_lands_once(rest);
        lemma_landed_step(slots, 168);
    }
}

proof fn lemma_total_follows(card: Punchcard, slots: Seq<(u32, u32)>, k: nat)
    requires
        card.tallies(slots),
        forall|d: int, h: int| in_grid(d, h) ==> #[trigger] occurrences(slots, d, h) <= 255,
        k <= 168,
    ensures
        total_below(card, k) == landed_below(slots, k),
    decreases k,
{
    if k > 0 {
        lemma_total_follows(card, slots, (k - 1) as nat);
        let d = (k - 1) / 24;
        let h = (k - 1) % 24;
        assert(in_grid(d, h));
        assert(occurrences(slots, d, h) <= 255);
    }
}

/// As long as no counter has run into its limit, the counters of the grid
/// add up to the number of events: none is dropped and none counted twice.
pub proof fn lemma_total_is_count(card: Punchcard, slots: Seq<(u32, u32)>)
    requires
        slots_in_grid(slots),
        card.tallies(slots),
        forall|d: int, h: int| in_grid(d, h) ==> #[trigger] occurrences(slots, d, h) <= 255,
    ensures
        total(card) == slots.len(),
{
    lemma_total_follows(card, slots, 168);
    lemma_every_slot_lands_once(slots);
}

proof fn lemma_occurrences_none(slots: Seq<(u32, u32)>, day: int, hour: int)
    requires
        slots.len() == 0,
    ensures
        occurrences(slots, day, hour) == 0,
{
}

/// The maximum of a grid is zero exactly when no event was counted.
pub proof fn lemma_peak_zero_iff_empty(card: Punchcard, slots: Seq<(u32, u32)>)
    requires
        card.wf(),
        slots_in_grid(slots),
        card.tallies(slots),
    ensures
        card.peak() == 0 <==> slots.len() == 0,
{
    if slots.len() == 0 {
        if card.peak() > 0 {
            let (d, h) = choose|d: int, h: int| in_grid(d, h) && #[trigger] card.cell(d, h) == card.peak();
            lemma_occurrences_none(slots, d, h);
        }
    } else {
        let d = slots.last().0 as int;
        let h = slots.last().1 as int;
        assert(in_grid(slots[slots.len() - 1].0 as int, slots[slots.len() - 1].1 as int));
        assert(occurrences(slots, d, h) >= 1);
        assert(card.cell(d, h) >= 1);
    }
}

/// One more event adds one occurrence to the cell it falls on and none to
/// any other cell.
pub proof fn lemma_one_more_event(slots: Seq<(u32, u32)>, slot: (u32, u32), day: int, hour: int)
    ensures
        occurrences(slots.push(slot), day, hour) == occurrences(slots, day, hour) + if slot.0 == day && slot.1
            == hour {
            1nat
        } else {
            0nat
        },
{
    assert(slots.push(slot).drop_last() =~= slots);
}

/// A counter never exceeds its limit, however many events fall on its
/// cell, and events elsewhere leave it as it was.
pub proof fn lemma_counters_saturate(card: Punchcard, slots: Seq<(u32, u32)>, day: int, hour: int)
    requires
        card.tallies(slots),
        in_grid(day, hour),
    ensures
        card.cell(day, hour) <= 255,
        occurrences(slots, day, hour) >= 255 ==> card.cell(day, hour) == 255,
        occurrences(slots, day, hour) <= 255 ==> card.cell(day, hour) == occurrences(slots, day, hour),
{
}

/// An empty cell is at the lightest intensity, the busiest cell at the
/// darkest, and a cell with more events is never lighter than one with fewer.
pub proof fn lemma_intensity(fewer: nat, more: nat, max: nat)
    requires
        fewer <= more <= max,
    ensures
        intensity_of(0, max) == 255,
        max > 0 ==> intensity_of(max, max) == 0,
        intensity_of(more, max) <= intensity_of(fewer, max) <= 255,
{
    if max > 0 {
        assert((255 * max) / max == 255) by (nonlinear_arith)
            requires
                max > 0,
        ;
        assert((255 * 0nat) / max == 0) by (nonlinear_arith)
            requires
                max > 0,
        ;
        assert(0 <= (255 * fewer) / max <= (255 * more) / max <= 255) by (nonlinear_arith)
            requires
                fewer <= more <= max,
                max > 0,
        ;
    }
}

/// Two punchcards with the same counters and the same style are drawn in
/// the same tones, cell by cell, and the same texts show them.
pub proof fn lemma_same_grid_same_tones(a: Punchcard, b: Punchcard)
    requires
        a.wf(),
        b.wf(),
        a.circles() == b.circles(),
        forall|d: int, h: int| in_grid(d, h) ==> a.cell(d, h) == b.cell(d, h),
    ensures
        a.peak() == b.peak(),
        forall|d: int, h: int| in_grid(d, h) ==> a.tone_at(d, h) == b.tone_at(d, h),
        forall|grid: Seq<Seq<Seq<char>>>| a.paints(grid) == b.paints(grid),
{
    if a.peak() > 0 {
        let (d, h) = choose|d: int, h: int| in_grid(d, h) && #[trigger] a.cell(d, h) == a.peak();
        assert(b.cell(d, h) <= b.peak());
    }
    if b.peak() > 0 {
        let (d, h) = choose|d: int, h: int| in_grid(d, h) && #[trigger] b.cell(d, h) == b.peak();
        assert(a.cell(d, h) <= a.peak());
    }
}

proof fn lemma_same_plain_cells(a: Punchcard, b: Punchcard, day: int, n: nat)
    requires
        0 <= day < 7,
        n <= 24,
        forall|d: int, h: int| in_grid(d, h) ==> a.tone_at(d, h) == b.tone_at(d, h),
    ensures
        a.plain_cells(day, n) == b.plain_cells(day, n),
    decreases n,
{
    if n > 0 {
        lemma_same_plain_cells(a, b, day, (n - 1) as nat);
        assert(in_grid(day, n - 1));
    }
}

proof fn lemma_same_plain_rows(a: Punchcard, b: Punchcard, n: nat)
    requires
        n <= 7,
        forall|d: int, h: int| in_grid(d, h) ==> a.tone_at(d, h) == b.tone_at(d, h),
    ensures
        a.plain_rows(n) == b.plain_rows(n),
    decreases n,
{
    if n > 0 {
        lemma_same_plain_rows(a, b, (n - 1) as nat);
        lemma_same_plain_cells(a, b, n - 1, 24);
    }
}

/// The plain rendering depends on the counters and the style alone: two
/// punchcards that agree in both render to the same text.
pub proof fn lemma_same_grid_same_text(a: Punchcard, b: Punchcard)
    requires
        a.wf(),
        b.wf(),
        a.circles() == b.circles(),
        forall|d: int, h: int| in_grid(d, h) ==> a.cell(d, h) == b.cell(d, h),
    ensures
        a.plain_text() == b.plain_text(),
{
    lemma_same_grid_same_tones(a, b);
    lemma_same_plain_rows(a, b, 7);
}

proof fn lemma_hour_labels(n: nat, hour: int)
    requires
        0 <= hour < n,
    ensures
        hour_labels(n).len() == 2 * n,
        hour_labels(n).subrange(2 * hour, 2 * hour + 2) == hour_label(hour),
    decreases n,
{
    if n == 1 {
        assert(hour_labels(0).len() == 0);
        assert(hour_labels(1).subrange(0, 2) =~= hour_label(0));
    } else {
        if hour < n - 1 {
            lemma_hour_labels((n - 1) as nat, hour);
            assert(hour_labels(n).subrange(2 * hour, 2 * hour + 2) =~= hour_labels((n - 1) as nat).subrange(
                2 * hour,
                2 * hour + 2,
            ));
        } else {
            lemma_hour_labels((n - 1) as nat, hour - 1);
            assert(hour_labels(n).subrange(2 * hour, 2 * hour + 2) =~= hour_label(hour));
        }
    }
}

/// In the header row each hour has two columns, after the border and the
/// gutter: an even hour leaves them blank, an odd hour fills them with
/// its two digits.
pub proof fn lemma_header_columns(hour: int)
    requires
        0 <= hour < 24,
    ensures
        header().subrange(63 + 2 * hour, 65 + 2 * hour) == hour_label(hour),
        hour % 2 == 0 ==> hour_label(hour) == seq![' ', ' '],
        hour % 2 == 1 ==> hour_label(hour).len() == 2 && hour_label(hour)[0] == (48 + hour / 10) as u8 as char
            && hour_label(hour)[1] == (48 + hour % 10) as u8 as char,
{
    lemma_hour_labels(24, hour);
    assert(header().subrange(63 + 2 * hour, 65 + 2 * hour) =~= hour_labels(24).subrange(2 * hour, 2 * hour + 2));
}

/// The body is the rows of Monday to Sunday, in that order, whatever the
/// cells hold.
pub proof fn lemma_days_in_order(grid: Seq<Seq<Seq<char>>>)
    ensures
        rows(grid, 7) == row(0, joined(grid[0], 24)) + row(1, joined(grid[1], 24)) + row(2, joined(grid[2], 24))
            + row(3, joined(grid[3], 24)) + row(4, joined(grid[4], 24)) + row(5, joined(grid[5], 24)) + row(
            6,
            joined(grid[6], 24),
        ),
        day_label(0) == seq!['M', 'o', 'n'],
        day_label(1) == seq!['T', 'u', 'e'],
        day_label(2) == seq!['W', 'e', 'd'],
        day_label(3) == seq!['T', 'h', 'u'],
        day_label(4) == seq!['F', 'r', 'i'],
        day_label(5) == seq!['S', 'a', 't'],
        day_label(6) == seq!['S', 'u', 'n'],
{
    reveal_with_fuel(rows, 8);
    assert(rows(grid, 7) =~= row(0, joined(grid[0], 24)) + row(1, joined(grid[1], 24)) + row(2, joined(grid[2], 24))
        + row(3, joined(grid[3], 24)) + row(4, joined(grid[4], 24)) + row(5, joined(grid[5], 24)) + row(
        6,
        joined(grid[6], 24),
    ));
}

} // verus!
