use chrono::{DateTime, NaiveDateTime};
use punchcard::grid::Punchcard;
use punchcard::source::{author_matches, commit_times, keep_present, stamp_format, timestamps_in};

const LOG: &str = "Alice,Mon Jan 1 09:00:00 2024 +0100\nBob,Tue Jan 2 10:00:00 2024 +0100\nalice cooper,Mon Jan 8 09:30:00 2024 -0500\n";

fn wall_clock(timestamp: &str) -> Option<NaiveDateTime> {
    DateTime::parse_from_str(timestamp, "%a %b %d %H:%M:%S%.3f %Y %z").ok().map(|dt| dt.naive_local())
}

#[test]
fn author_filter_ignores_case() {
    assert!(author_matches("Alice", "ali"));
    assert!(!author_matches("Bob", "ali"));
    assert!(author_matches("ALICE", "ali"));
    assert!(author_matches("alice", "ALI"));
    assert!(author_matches("Bob", ""));
    assert!(author_matches("Malice", "ali"));
    assert!(!author_matches("Al", "ali"));
    assert!(!author_matches("a-l-i", "ali"));
}

#[test]
fn filter_keeps_only_matching_authors() {
    let stamps = timestamps_in(LOG, Some("ali"));
    assert_eq!(stamps, vec!["Mon Jan 1 09:00:00 2024 +0100", "Mon Jan 8 09:30:00 2024 -0500"]);
    let times: Vec<NaiveDateTime> = stamps.iter().filter_map(|s| wall_clock(s)).collect();
    assert_eq!(times.len(), 2);
    let card = Punchcard::new(times);
    assert_eq!(card.count(0, 9), 2);
    assert_eq!(card.count(1, 10), 0);
    assert_eq!(card.max(), 2);
}

#[test]
fn no_filter_keeps_every_entry() {
    let stamps = timestamps_in(LOG, None);
    assert_eq!(
        stamps,
        vec!["Mon Jan 1 09:00:00 2024 +0100", "Tue Jan 2 10:00:00 2024 +0100", "Mon Jan 8 09:30:00 2024 -0500"]
    );
    let times: Vec<NaiveDateTime> = stamps.iter().filter_map(|s| wall_clock(s)).collect();
    let card = Punchcard::new(times);
    assert_eq!(card.count(0, 9), 2);
    assert_eq!(card.count(1, 10), 1);
}

#[test]
fn filter_that_matches_nobody_gives_an_empty_grid() {
    let stamps = timestamps_in(LOG, Some("carol"));
    assert!(stamps.is_empty());
    assert_eq!(Punchcard::new(Vec::new()).max(), 0);
}

#[test]
fn lines_without_a_comma_are_left_out() {
    let stamps = timestamps_in("no comma here\nAnn,first\n\nBen,second", None);
    assert_eq!(stamps, vec!["first", "second"]);
}

#[test]
fn a_line_is_split_at_its_first_comma() {
    assert_eq!(timestamps_in("Doe, Jane,when", None), vec![" Jane,when"]);
    assert_eq!(timestamps_in("Doe, Jane,when", Some("jane")), Vec::<String>::new());
    assert_eq!(timestamps_in(",when", None), vec!["when"]);
    assert_eq!(timestamps_in("who,", None), vec![""]);
}

#[test]
fn empty_log_has_no_timestamps() {
    assert!(timestamps_in("", None).is_empty());
    assert!(timestamps_in("\n", None).is_empty());
    assert_eq!(timestamps_in("a,b\n", None), vec!["b"]);
    assert_eq!(timestamps_in("a,b\n\nc,d\n\n", None), vec!["b", "d"]);
}

#[test]
fn commit_times_are_seconds_since_the_epoch() {
    assert_eq!(commit_times(LOG, None), vec![1704096000, 1704186000, 1704724200]);
    assert_eq!(commit_times(LOG, Some("ali")), vec![1704096000, 1704724200]);
    assert_eq!(commit_times(LOG, Some("BOB")), vec![1704186000]);
    assert_eq!(commit_times("", None), Vec::<i64>::new());
}

#[test]
fn entries_with_a_malformed_timestamp_are_left_out() {
    let log = "Ann,not a date\nBen,Tue Jan 2 10:00:00 2024 +0100\nCid,Tue Jan 2 10:00:00 2024\nDan\nEve,Mon Jan 1 09:00:00.123 2024 +0100";
    assert_eq!(commit_times(log, None), vec![1704186000, 1704096000]);
    assert_eq!(commit_times(log, Some("ann")), Vec::<i64>::new());
}

#[test]
fn missing_values_are_dropped_in_order() {
    assert_eq!(keep_present(&vec![Some(5), None, Some(-3), None, None, Some(5)]), vec![5, -3, 5]);
    assert_eq!(keep_present(&vec![None, None]), Vec::<i64>::new());
    assert_eq!(keep_present(&Vec::new()), Vec::<i64>::new());
}

#[test]
fn stamp_format_reads_the_log_layout() {
    let parsed = DateTime::parse_from_str("Sun Jan 7 23:59:59 2024 +0000", stamp_format()).unwrap();
    assert_eq!(parsed.timestamp(), 1704671999);
    let card = Punchcard::new(vec![parsed.naive_local()]);
    assert_eq!(card.count(6, 23), 1);
}
