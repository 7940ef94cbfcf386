use punchcard::grid::Punchcard;
use punchcard::paint::paint;
use punchcard::render::{write_plain_cell, write_row};
use punchcard::shade::{Glyph, Tone};

const TOP: &str = "╭──────────────────────────────────────────────────────╮\n";
const HOURS: &str = "│       01  03  05  07  09  11  13  15  17  19  21  23 │\n";
const BOTTOM: &str = "╰──────────────────────────────────────────────────────╯";
const DAYS: [&str; 7] = ["Mon", "Tue", "Wed", "Thu", "Fri", "Sat", "Sun"];

fn plain() {
    colored::control::set_override(false);
}

fn blank_box() -> String {
    let mut expected = String::new();
    expected.push_str(TOP);
    expected.push_str(HOURS);
    for day in DAYS {
        expected.push_str(&format!("│ {day} {} │\n", " ".repeat(48)));
    }
    expected.push_str(BOTTOM);
    expected
}

#[test]
fn header_is_border_and_odd_hours() {
    let card = Punchcard::tally(&vec![(1, 1)]);
    let mut out = String::from(">");
    card.write_header(&mut out);
    assert_eq!(out, format!(">{TOP}{HOURS}"));
    assert_eq!(TOP.chars().count(), 57);
    let labels: Vec<char> = HOURS.chars().skip(6).take(48).collect();
    for hour in 0..24usize {
        let shown: String = labels[2 * hour..2 * hour + 2].iter().collect();
        if hour % 2 == 0 {
            assert_eq!(shown, "  ");
        } else {
            assert_eq!(shown, format!("{hour:02}"));
        }
    }
}

#[test]
fn footer_is_the_bottom_border() {
    let card = Punchcard::tally(&Vec::new());
    let mut out = String::from("x\n");
    card.write_footer(&mut out);
    assert_eq!(out, format!("x\n{BOTTOM}"));
}

#[test]
fn row_frames_the_cells_of_a_day() {
    let mut out = String::new();
    write_row(&mut out, 2, "abcd");
    write_row(&mut out, 6, "");
    assert_eq!(out, "│ Wed abcd │\n│ Sun  │\n");
}

#[test]
fn empty_card_renders_a_blank_box() {
    plain();
    let card = Punchcard::new(Vec::new());
    assert_eq!(card.render(), blank_box());
    let mut out = String::from("before");
    card.write(&mut out);
    assert_eq!(out, format!("before{}", blank_box()));
}

#[test]
fn blocks_render_blank_without_colour() {
    plain();
    let card = Punchcard::tally(&vec![(0, 9), (0, 9), (0, 9), (4, 2)]);
    assert_eq!(card.render(), blank_box());
}

#[test]
fn rendering_twice_gives_the_same_text() {
    plain();
    let mut card = Punchcard::tally(&vec![(0, 9), (3, 3), (3, 3)]);
    assert_eq!(card.render(), card.render());
    let same = Punchcard::tally(&vec![(3, 3), (0, 9), (3, 3)]);
    assert_eq!(card.render(), same.render());
    card.draw_circles(true);
    assert_ne!(card.render(), same.render());
}

#[test]
fn days_come_in_fixed_order() {
    plain();
    let card = Punchcard::tally(&vec![(6, 0), (0, 0), (3, 12)]);
    let text = card.render();
    let lines: Vec<&str> = text.split('\n').collect();
    assert_eq!(lines.len(), 10);
    for (i, day) in DAYS.iter().enumerate() {
        assert!(lines[2 + i].starts_with(&format!("│ {day} ")));
        assert!(lines[2 + i].ends_with(" │"));
    }
}

#[test]
fn circles_render_holes_where_something_was_counted() {
    plain();
    let mut card = Punchcard::tally(&vec![(0, 9), (0, 9), (0, 9), (6, 23)]);
    card.draw_circles(true);
    let mut body = String::new();
    card.write_body(&mut body);
    let mut expected = String::new();
    for (i, day) in DAYS.iter().enumerate() {
        let mut cells = String::new();
        for hour in 0..24 {
            let hit = (i == 0 && hour == 9) || (i == 6 && hour == 23);
            cells.push_str(if hit { "\u{1FBE9}\u{1FBEB}" } else { "  " });
        }
        expected.push_str(&format!("│ {day} {cells} │\n"));
    }
    assert_eq!(body, expected);
    let mut cell = String::new();
    card.write_hole(&mut cell, 0, 9);
    assert_eq!(cell, "\u{1FBE9}\u{1FBEB}");
    cell.clear();
    card.write_hole(&mut cell, 0, 10);
    assert_eq!(cell, "  ");
}

#[test]
fn paint_without_colour_is_the_glyph() {
    plain();
    assert_eq!(paint(&Tone { glyph: Glyph::Blank, ink: None, ground: 0 }), "  ");
    assert_eq!(paint(&Tone { glyph: Glyph::Hole, ink: Some(9), ground: 255 }), "\u{1FBE9}\u{1FBEB}");
}

fn row_of(day: &str, marks: &[(usize, &str)]) -> String {
    let mut cells = String::new();
    for hour in 0..24 {
        let mark = marks.iter().find(|(h, _)| *h == hour).map(|(_, m)| *m).unwrap_or("  ");
        cells.push_str(mark);
    }
    format!("│ {day} {cells} │\n")
}

#[test]
fn plain_rendering_of_an_empty_card_is_a_blank_box() {
    assert_eq!(Punchcard::new(Vec::new()).render_plain(), blank_box());
    assert_eq!(Punchcard::default().render_plain(), blank_box());
}

#[test]
fn plain_rendering_marks_the_busiest_cell() {
    let card = Punchcard::tally(&vec![(0, 9), (0, 9), (0, 9)]);
    let mut expected = String::new();
    expected.push_str(TOP);
    expected.push_str(HOURS);
    expected.push_str(&row_of("Mon", &[(9, "##")]));
    for day in &DAYS[1..] {
        expected.push_str(&row_of(day, &[]));
    }
    expected.push_str(BOTTOM);
    assert_eq!(card.render_plain(), expected);
}

#[test]
fn plain_rendering_grades_the_marks() {
    let mut slots = Vec::new();
    for (hour, times) in [(0u32, 1), (1, 2), (2, 3), (23, 4)] {
        for _ in 0..times {
            slots.push((6u32, hour));
        }
    }
    let mut card = Punchcard::tally(&slots);
    let text = card.render_plain();
    let lines: Vec<&str> = text.split('\n').collect();
    assert_eq!(format!("{}\n", lines[8]), row_of("Sun", &[(0, ".."), (1, "::"), (2, "**"), (23, "##")]));
    assert_eq!(format!("{}\n", lines[2]), row_of("Mon", &[]));
    card.draw_circles(true);
    let text = card.render_plain();
    let lines: Vec<&str> = text.split('\n').collect();
    let hole = "\u{1FBE9}\u{1FBEB}";
    assert_eq!(format!("{}\n", lines[8]), row_of("Sun", &[(0, hole), (1, hole), (2, hole), (23, hole)]));
}

#[test]
fn plain_rendering_is_repeatable() {
    let a = Punchcard::tally(&vec![(1, 2), (3, 4), (1, 2)]);
    let b = Punchcard::tally(&vec![(3, 4), (1, 2), (1, 2)]);
    assert_eq!(a.render_plain(), a.render_plain());
    assert_eq!(a.render_plain(), b.render_plain());
}

#[test]
fn plain_cells_follow_the_tone() {
    let mut out = String::from("[");
    write_plain_cell(&mut out, &Tone { glyph: Glyph::Blank, ink: None, ground: 255 });
    write_plain_cell(&mut out, &Tone { glyph: Glyph::Blank, ink: None, ground: 254 });
    write_plain_cell(&mut out, &Tone { glyph: Glyph::Blank, ink: None, ground: 191 });
    write_plain_cell(&mut out, &Tone { glyph: Glyph::Blank, ink: None, ground: 127 });
    write_plain_cell(&mut out, &Tone { glyph: Glyph::Blank, ink: None, ground: 63 });
    write_plain_cell(&mut out, &Tone { glyph: Glyph::Hole, ink: Some(0), ground: 255 });
    write_plain_cell(&mut out, &Tone { glyph: Glyph::Blank, ink: Some(255), ground: 255 });
    assert_eq!(out, "[  ..::**##\u{1FBE9}\u{1FBEB}  ");
}
