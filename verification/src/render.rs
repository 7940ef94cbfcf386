//! The punchcard as text: a box with an hour header and one row per day.

use crate::grid::{in_grid, Punchcard};
use crate::paint::{framed, glyph_str, glyph_text, paint};
use crate::shade::{tone, tone_of, Tone};
use vstd::prelude::*;

verus! {

/// Trusted: `String::push` appends the character to the end of the string.
pub assume_specification[ String::push ](s: &mut String, ch: char)
    ensures
        final(s)@ == old(s)@.push(ch),
;

/// Trusted: `String::push_str` appends the text to the end of the string.
pub assume_specification[ String::push_str ](s: &mut String, text: &str)
    ensures
        final(s)@ == old(s)@ + text@,
;

/// Interior width of the box: the label gutter, the cells and a trailing space.
pub const WIDTH: usize = 54;

/// A horizontal line of `n` characters.
pub open spec fn rule(n: nat) -> Seq<char> {
    Seq::new(n, |i: int| '\u{2500}')
}

pub open spec fn top_border() -> Seq<char> {
    seq!['\u{256d}'] + rule(54) + seq!['\u{256e}', '\n']
}

pub open spec fn bottom_border() -> Seq<char> {
    seq!['\u{2570}'] + rule(54) + seq!['\u{256f}']
}

/// The decimal digit `d` as a character.
pub open spec fn digit(d: int) -> char {
    (48 + d) as u8 as char
}

/// The header's two columns for an hour: its two digits if it is odd, else blank.
pub open spec fn hour_label(hour: int) -> Seq<char> {
    if hour % 2 == 1 {
        seq![digit(hour / 10), digit(hour % 10)]
    } else {
        seq![' ', ' ']
    }
}

/// The labels of the hours below `n`, in order.
pub open spec fn hour_labels(n: nat) -> Seq<char>
    decreases n,
{
    if n == 0 {
        Seq::empty()
    } else {
        hour_labels((n - 1) as nat) + hour_label(n - 1)
    }
}

pub open spec fn header() -> Seq<char> {
    top_border() + seq!['\u{2502}', ' ', ' ', ' ', ' ', ' '] + hour_labels(24) + seq![' ', '\u{2502}', '\n']
}

/// The three-letter name of a day, Monday being day 0.
pub open spec fn day_label(day: int) -> Seq<char> {
    if day == 0 {
        seq!['M', 'o', 'n']
    } else if day == 1 {
        seq!['T', 'u', 'e']
    } else if day == 2 {
        seq!['W', 'e', 'd']
    } else if day == 3 {
        seq!['T', 'h', 'u']
    } else if day == 4 {
        seq!['F', 'r', 'i']
    } else if day == 5 {
        seq!['S', 'a', 't']
    } else {
        seq!['S', 'u', 'n']
    }
}

/// One row of the body: the day's name, then the text of its cells.
pub open spec fn row(day: int, cells: Seq<char>) -> Seq<char> {
    seq!['\u{2502}', ' '] + day_label(day) + seq![' '] + cells + seq![' ', '\u{2502}', '\n']
}

/// The first `n` of the given cell texts, one after the other.
pub open spec fn joined(cells: Seq<Seq<char>>, n: nat) -> Seq<char>
    decreases n,
{
    if n == 0 {
        Seq::empty()
    } else {
        joined(cells, (n - 1) as nat) + cells[n - 1]
    }
}

/// The rows of the days below `n`, from Monday on.
pub open spec fn rows(grid: Seq<Seq<Seq<char>>>, n: nat) -> Seq<char>
    decreases n,
{
    if n == 0 {
        Seq::empty()
    } else {
        rows(grid, (n - 1) as nat) + row(n - 1, joined(grid[n - 1], 24))
    }
}

/// The whole box around the given cell texts.
pub open spec fn boxed(grid: Seq<Seq<Seq<char>>>) -> Seq<char> {
    header() + rows(grid, 7) + bottom_border()
}

/// The character that stands for a gray level where no colour is used:
/// blank for the lightest, denser as the level gets darker.
pub open spec fn plain_mark(level: u8) -> char {
    if level == 255 {
        ' '
    } else if level >= 192 {
        '.'
    } else if level >= 128 {
        ':'
    } else if level >= 64 {
        '*'
    } else {
        '#'
    }
}

/// A cell without colour: a block shows the mark of its gray level twice,
/// a hole shows its glyph.
pub open spec fn plain_cell(tone: Tone) -> Seq<char> {
    match tone.ink {
        None => seq![plain_mark(tone.ground), plain_mark(tone.ground)],
        Some(_) => glyph_text(tone.glyph),
    }
}

fn write_rule(out: &mut String)
    ensures
        final(out)@ == old(out)@ + rule(54),
{
    let mut i: usize = 0;
    while i < WIDTH
        invariant
            i <= 54,
            out@ == old(out)@ + rule(i as nat),
        decreases 54 - i,
    {
        out.push('\u{2500}');
        i = i + 1;
        assert(out@ =~= old(out)@ + rule(i as nat));
    }
}

fn day_name(day: usize) -> (name: &'static str)
    requires
        day < 7,
    ensures
        name@ == day_label(day as int),
{
    proof {
        reveal_strlit("Mon");
        reveal_strlit("Tue");
        reveal_strlit("Wed");
        reveal_strlit("Thu");
        reveal_strlit("Fri");
        reveal_strlit("Sat");
        reveal_strlit("Sun");
    }
    let name = if day == 0 {
        "Mon"
    } else if day == 1 {
        "Tue"
    } else if day == 2 {
        "Wed"
    } else if day == 3 {
        "Thu"
    } else if day == 4 {
        "Fri"
    } else if day == 5 {
        "Sat"
    } else {
        "Sun"
    };
    assert(name@ =~= day_label(day as int));
    name
}

/// Appends one row of the body around the already painted cells of a day.
pub fn write_row(out: &mut String, day: usize, cells: &str)
    requires
        day < 7,
    ensures
        final(out)@ == old(out)@ + row(day as int, cells@),
{
    out.push('\u{2502}');
    out.push(' ');
    out.push_str(day_name(day));
    out.push(' ');
    out.push_str(cells);
    out.push(' ');
    out.push('\u{2502}');
    out.push('\n');
    assert(out@ =~= old(out)@ + row(day as int, cells@));
}

fn mark(level: u8) -> (ch: char)
    ensures
        ch == plain_mark(level),
{
    if level == 255 {
        ' '
    } else if level >= 192 {
        '.'
    } else if level >= 128 {
        ':'
    } else if level >= 64 {
        '*'
    } else {
        '#'
    }
}

/// Appends a cell of the given tone without any colour.
pub fn write_plain_cell(out: &mut String, tone: &Tone)
    ensures
        final(out)@ == old(out)@ + plain_cell(*tone),
{
    match tone.ink {
        None => {
            out.push(mark(tone.ground));
            out.push(mark(tone.ground));
        },
        Some(_) => {
            out.push_str(glyph_str(tone.glyph));
        },
    }
    assert(out@ =~= old(out)@ + plain_cell(*tone));
}

impl Punchcard {
    /// The tone in which the cell (day, hour) is drawn.
    pub open spec fn tone_at(&self, day: int, hour: int) -> Tone {
        tone_of(self.cell(day, hour), self.peak(), self.circles())
    }

    /// The first `n` cells of a day without colour, one after the other.
    pub open spec fn plain_cells(&self, day: int, n: nat) -> Seq<char>
        decreases n,
    {
        if n == 0 {
            Seq::empty()
        } else {
            self.plain_cells(day, (n - 1) as nat) + plain_cell(self.tone_at(day, n - 1))
        }
    }

    /// The rows of the days below `n` without colour.
    pub open spec fn plain_rows(&self, n: nat) -> Seq<char>
        decreases n,
    {
        if n == 0 {
            Seq::empty()
        } else {
            self.plain_rows((n - 1) as nat) + row(n - 1, self.plain_cells(n - 1, 24))
        }
    }

    /// The whole box without colour.
    pub open spec fn plain_text(&self) -> Seq<char> {
        header() + self.plain_rows(7) + bottom_border()
    }

    /// The whole box as plain text, for where colours are not wanted: the
    /// same frame, with marks in place of shades.
    pub fn render_plain(&self) -> (text: String)
        requires
            self.wf(),
        ensures
            text@ == self.plain_text(),
    {
        let mut text = String::new();
        self.write_header(&mut text);
        let ghost start = text@;
        let mut day: usize = 0;
        while day < 7
            invariant
                day <= 7,
                self.wf(),
                text@ == start + self.plain_rows(day as nat),
            decreases 7 - day,
        {
            let mut cells = String::new();
            let mut hour: usize = 0;
            while hour < 24
                invariant
                    hour <= 24,
                    day < 7,
                    self.wf(),
                    cells@ == self.plain_cells(day as int, hour as nat),
                decreases 24 - hour,
            {
                let tone = self.hole(day, hour);
                write_plain_cell(&mut cells, &tone);
                hour = hour + 1;
            }
            write_row(&mut text, day, cells.as_str());
            day = day + 1;
            assert(text@ =~= start + self.plain_rows(day as nat));
        }
        self.write_footer(&mut text);
        assert(text@ =~= self.plain_text());
        text
    }

    /// `grid` holds, for each day and hour, a text that shows the cell's glyph.
    pub open spec fn paints(&self, grid: Seq<Seq<Seq<char>>>) -> bool {
        &&& grid.len() == 7
        &&& forall|d: int| 0 <= d < 7 ==> (#[trigger] grid[d]).len() == 24
        &&& forall|d: int, h: int| in_grid(d, h) ==> framed(#[trigger] grid[d][h], glyph_text(self.tone_at(d, h).glyph))
    }

    /// The tone of the cell (day, hour).
    pub fn hole(&self, day: usize, hour: usize) -> (tone: Tone)
        requires
            self.wf(),
            in_grid(day as int, hour as int),
        ensures
            tone == self.tone_at(day as int, hour as int),
    {
        tone(self.count(day, hour), self.max(), self.circles_enabled())
    }

    /// Appends the painted cell (day, hour).
    pub fn write_hole(&self, out: &mut String, day: usize, hour: usize)
        requires
            self.wf(),
            in_grid(day as int, hour as int),
        ensures
            exists|cell: Seq<char>| #[trigger] framed(cell, glyph_text(self.tone_at(day as int, hour as int).glyph))
                && final(out)@ == old(out)@ + cell,
    {
        let tone = self.hole(day, hour);
        let symbol = paint(&tone);
        out.push_str(symbol.as_str());
    }

    /// Appends the top border and the row of hour labels.
    pub fn write_header(&self, out: &mut String)
        ensures
            final(out)@ == old(out)@ + header(),
    {
        out.push('\u{256d}');
        write_rule(out);
        out.push('\u{256e}');
        out.push('\n');
        out.push('\u{2502}');
        out.push_str("     ");
        proof {
            reveal_strlit("     ");
        }
        let ghost start = out@;
        assert(start =~= old(out)@ + top_border() + seq!['\u{2502}', ' ', ' ', ' ', ' ', ' ']);
        let mut hour: u8 = 0;
        while hour < 24
            invariant
                hour <= 24,
                out@ == start + hour_labels(hour as nat),
            decreases 24 - hour,
        {
            if hour & 1 == 1 {
                out.push((48 + hour / 10) as char);
                out.push((48 + hour % 10) as char);
            } else {
                out.push(' ');
                out.push(' ');
            }
            assert(hour & 1 == hour % 2) by (bit_vector);
            hour = hour + 1;
            assert(out@ =~= start + hour_labels(hour as nat));
        }
        out.push(' ');
        out.push('\u{2502}');
        out.push('\n');
        assert(out@ =~= old(out)@ + header());
    }

    /// Appends the seven rows of the body, Monday first.
    pub fn write_body(&self, out: &mut String)
        requires
            self.wf(),
        ensures
            exists|grid: Seq<Seq<Seq<char>>>| #[trigger] self.paints(grid) && final(out)@ == old(out)@ + rows(grid, 7),
    {
        let ghost mut grid: Seq<Seq<Seq<char>>> = Seq::empty();
        let mut day: usize = 0;
        while day < 7
            invariant
                day <= 7,
                self.wf(),
                grid.len() == day,
                forall|d: int| 0 <= d < day ==> (#[trigger] grid[d]).len() == 24,
                forall|d: int, h: int| in_grid(d, h) && d < day ==> framed(#[trigger] grid[d][h], glyph_text(self.tone_at(d, h).glyph)),
                out@ == old(out)@ + rows(grid, day as nat),
            decreases 7 - day,
        {
            let mut cells = String::new();
            let ghost mut parts: Seq<Seq<char>> = Seq::empty();
            let mut hour: usize = 0;
            while hour < 24
                invariant
                    hour <= 24,
                    day < 7,
                    self.wf(),
                    parts.len() == hour,
                    forall|h: int| 0 <= h < hour ==> framed(#[trigger] parts[h], glyph_text(self.tone_at(day as int, h).glyph)),
                    cells@ == joined(parts, hour as nat),
                decreases 24 - hour,
            {
                let ghost before = cells@;
                self.write_hole(&mut cells, day, hour);
                proof {
                    let cell = choose|cell: Seq<char>| #[trigger] framed(cell, glyph_text(self.tone_at(day as int, hour as int).glyph))
                        && cells@ == before + cell;
                    let longer = parts.push(cell);
                    lemma_joined_prefix(parts, longer, hour as nat);
                    parts = longer;
                }
                hour = hour + 1;
            }
            let ghost before = grid;
            write_row(out, day, cells.as_str());
            proof {
                grid = before.push(parts);
                lemma_rows_prefix(before, grid, day as nat);
            }
            day = day + 1;
        }
        proof {
            assert(self.paints(grid));
        }
    }

    /// Appends the bottom border.
    pub fn write_footer(&self, out: &mut String)
        ensures
            final(out)@ == old(out)@ + bottom_border(),
    {
        out.push('\u{2570}');
        write_rule(out);
        out.push('\u{256f}');
        assert(out@ =~= old(out)@ + bottom_border());
    }

    /// Appends the whole box: header, body and bottom border.
    pub fn write(&self, out: &mut String)
        requires
            self.wf(),
        ensures
            exists|grid: Seq<Seq<Seq<char>>>| #[trigger] self.paints(grid) && final(out)@ == old(out)@ + boxed(grid),
    {
        self.write_header(out);
        let ghost mid = out@;
        self.write_body(out);
        self.write_footer(out);
        proof {
            let grid = choose|grid: Seq<Seq<Seq<char>>>| #[trigger] self.paints(grid) && out@ == mid + rows(grid, 7) + bottom_border();
            assert(out@ =~= old(out)@ + boxed(grid));
        }
    }

    /// The whole box as a string of its own.
    pub fn render(&self) -> (text: String)
        requires
            self.wf(),
        ensures
            exists|grid: Seq<Seq<Seq<char>>>| #[trigger] self.paints(grid) && text@ == boxed(grid),
    {
        let mut text = String::new();
        self.write(&mut text);
        proof {
            let grid = choose|grid: Seq<Seq<Seq<char>>>| #[trigger] self.paints(grid) && text@ == Seq::<char>::empty() + boxed(grid);
            assert(text@ =~= boxed(grid));
        }
        text
    }
}

/// Joining depends only on the cells that are joined.
proof fn lemma_joined_prefix(a: Seq<Seq<char>>, b: Seq<Seq<char>>, n: nat)
    requires
        n <= a.len(),
        n <= b.len(),
        forall|i: int| 0 <= i < n ==> a[i] == b[i],
    ensures
        joined(a, n) == joined(b, n),
    decreases n,
{
    if n > 0 {
        lemma_joined_prefix(a, b, (n - 1) as nat);
    }
}

/// The rows depend only on the days that are written.
proof fn lemma_rows_prefix(a: Seq<Seq<Seq<char>>>, b: Seq<Seq<Seq<char>>>, n: nat)
    requires
        n <= a.len(),
        n <= b.len(),
        forall|i: int| 0 <= i < n ==> a[i] == b[i],
    ensures
        rows(a, n) == rows(b, n),
    decreases n,
{
    if n > 0 {
        lemma_rows_prefix(a, b, (n - 1) as nat);
    }
}

} // verus!
