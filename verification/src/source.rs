//! Picking the timestamps out of a commit log that has one entry per line:
//! the author's name, a comma, and the timestamp.

use chrono::DateTime;
use vstd::prelude::*;

verus! {

/// Index of the first `mark` in `text`, or the length of `text` if it has none.
pub open spec fn first_of(text: Seq<char>, mark: char) -> int
    decreases text.len(),
{
    if text.len() == 0 || text[0] == mark {
        0
    } else {
        1 + first_of(text.skip(1), mark)
    }
}

/// The lines of a text. Each line feed ends a line; what follows the last
/// line feed is a line too unless it is empty.
pub open spec fn lines_of(text: Seq<char>) -> Seq<Seq<char>>
    decreases text.len(),
{
    let n = first_of(text, '\n');
    if text.len() == 0 {
        Seq::empty()
    } else if 0 <= n < text.len() {
        seq![text.take(n)] + lines_of(text.skip(n + 1))
    } else {
        seq![text]
    }
}

/// `needle` is a contiguous part of `hay`.
pub open spec fn occurs_in(needle: Seq<char>, hay: Seq<char>) -> bool {
    exists|i: int| 0 <= i && i + needle.len() <= hay.len() && #[trigger] hay.subrange(i, i + needle.len()) == needle
}

/// The lowercase form of a text, as the standard library maps it.
pub uninterp spec fn lowercase_of(text: Seq<char>) -> Seq<char>;

/// An author passes a filter if the filter occurs in the name, letter case aside.
pub open spec fn matches_author(author: Seq<char>, filter: Seq<char>) -> bool {
    occurs_in(lowercase_of(filter), lowercase_of(author))
}

/// A filter as a sequence of characters, where there is one.
pub open spec fn filter_text(filter: Option<&str>) -> Option<Seq<char>> {
    match filter {
        Some(text) => Some(text@),
        None => None,
    }
}

/// The timestamp field of a line, if the line has an author field whose
/// name passes the filter.
pub open spec fn kept(line: Seq<char>, filter: Option<Seq<char>>) -> Option<Seq<char>> {
    let n = first_of(line, ',');
    if n < line.len() && (filter is None || matches_author(line.take(n), filter->0)) {
        Some(line.skip(n + 1))
    } else {
        None
    }
}

/// The timestamp fields of the lines that are kept, in the order of the lines.
pub open spec fn picked(lines: Seq<Seq<char>>, filter: Option<Seq<char>>) -> Seq<Seq<char>>
    decreases lines.len(),
{
    if lines.len() == 0 {
        Seq::empty()
    } else {
        let rest = picked(lines.drop_last(), filter);
        match kept(lines.last(), filter) {
            Some(stamp) => rest.push(stamp),
            None => rest,
        }
    }
}

/// The characters of each string of a sequence.
pub open spec fn texts(items: Seq<String>) -> Seq<Seq<char>> {
    Seq::new(items.len(), |i: int| items[i]@)
}

/// The instant that a timestamp names in the given layout, in seconds since
/// the Unix epoch, as chrono reads it; nothing where it does not follow the
/// layout.
pub uninterp spec fn parsed_epoch(stamp: Seq<char>, format: Seq<char>) -> Option<i64>;

/// What each text of a sequence names in the given layout.
pub open spec fn readings(stamps: Seq<Seq<char>>, format: Seq<char>) -> Seq<Option<i64>> {
    Seq::new(stamps.len(), |i: int| parsed_epoch(stamps[i], format))
}

/// The values that are present in a sequence, in order.
pub open spec fn present(items: Seq<Option<i64>>) -> Seq<i64>
    decreases items.len(),
{
    if items.len() == 0 {
        Seq::empty()
    } else {
        let rest = present(items.drop_last());
        match items.last() {
            Some(item) => rest.push(item),
            None => rest,
        }
    }
}

/// Trusted: `str::split_terminator` with a line feed as pattern, collected
/// into a vector. It yields the parts between line feeds and leaves out an
/// empty part after the last one.
#[verifier::external_body]
fn split_lines<'a>(text: &'a str) -> (lines: Vec<&'a str>)
    ensures
        lines@.len() == lines_of(text@).len(),
        forall|i: int| 0 <= i < lines@.len() ==> (#[trigger] lines@[i])@ == lines_of(text@)[i],
{
    text.split_terminator('\n').collect()
}

/// Trusted: `str::split_once` with a comma as delimiter. It splits at the
/// first comma, which belongs to neither part, and gives nothing for a text
/// without a comma.
#[verifier::external_body]
fn split_at_comma<'a>(line: &'a str) -> (parts: Option<(&'a str, &'a str)>)
    ensures
        match parts {
            Some((head, tail)) => {
                &&& first_of(line@, ',') < line@.len()
                &&& head@ == line@.take(first_of(line@, ','))
                &&& tail@ == line@.skip(first_of(line@, ',') + 1)
            },
            None => first_of(line@, ',') >= line@.len(),
        },
{
    line.split_once(',')
}

/// Trusted: `str::to_lowercase`, whose result depends on the text alone.
#[verifier::external_body]
fn lowercase(text: &str) -> (out: String)
    ensures
        out@ == lowercase_of(text@),
{
    text.to_lowercase()
}

/// Trusted: `str::contains` with a string as pattern: whether the pattern
/// matches a contiguous part of the text.
#[verifier::external_body]
fn contains_text(hay: &str, needle: &str) -> (found: bool)
    ensures
        found == occurs_in(needle@, hay@),
{
    hay.contains(needle)
}

/// Trusted: `DateTime::parse_from_str`, and `DateTime::timestamp` of what
/// it parsed. The outcome depends on the two texts alone; a text that does
/// not follow the layout gives nothing.
#[verifier::external_body]
fn parse_epoch(stamp: &str, format: &str) -> (seconds: Option<i64>)
    ensures
        seconds == parsed_epoch(stamp@, format@),
{
    match DateTime::parse_from_str(stamp, format) {
        Ok(parsed) => Some(parsed.timestamp()),
        Err(_) => None,
    }
}

/// The layout of a timestamp in the log: weekday, month, day, time of day
/// with optional milliseconds, year and offset from UTC.
pub fn stamp_format() -> (format: &'static str)
    ensures
        format@ == "%a %b %d %H:%M:%S%.3f %Y %z"@,
{
    "%a %b %d %H:%M:%S%.3f %Y %z"
}

/// Whether the filter occurs in the author's name, letter case aside.
pub fn author_matches(author: &str, filter: &str) -> (hit: bool)
    ensures
        hit == matches_author(author@, filter@),
{
    let name = lowercase(author);
    let wanted = lowercase(filter);
    contains_text(name.as_str(), wanted.as_str())
}

/// The timestamp fields of a log, in order: of every line that has a comma
/// and, where a filter is given, an author's name that passes it. Lines
/// without a comma are left out.
pub fn timestamps_in(log: &str, filter: Option<&str>) -> (stamps: Vec<String>)
    ensures
        texts(stamps@) == picked(lines_of(log@), filter_text(filter)),
{
    let lines = split_lines(log);
    let ghost all = lines_of(log@);
    let ghost wanted = filter_text(filter);
    let mut stamps: Vec<String> = Vec::new();
    let mut i: usize = 0;
    while i < lines.len()
        invariant
            i <= lines.len(),
            all == lines_of(log@),
            wanted == filter_text(filter),
            lines@.len() == all.len(),
            forall|j: int| 0 <= j < lines@.len() ==> (#[trigger] lines@[j])@ == all[j],
            texts(stamps@) == picked(all.take(i as int), wanted),
        decreases lines.len() - i,
    {
        let line = lines[i];
        proof {
            assert(all.take(i + 1).drop_last() =~= all.take(i as int));
            assert(all.take(i + 1).last() == line@);
        }
        let ghost before = stamps@;
        match split_at_comma(line) {
            Some((author, stamp)) => {
                let keep = match filter {
                    Some(text) => author_matches(author, text),
                    None => true,
                };
                if keep {
                    stamps.push(stamp.to_owned());
                    assert(texts(stamps@) =~= texts(before).push(stamp@));
                }
            },
            None => {},
        }
        i = i + 1;
    }
    proof {
        assert(all.take(i as int) =~= all);
    }
    stamps
}

/// Leaves out what is missing: the values that are present, in order.
pub fn keep_present(items: &Vec<Option<i64>>) -> (kept: Vec<i64>)
    ensures
        kept@ == present(items@),
{
    let mut kept: Vec<i64> = Vec::new();
    let mut i: usize = 0;
    while i < items.len()
        invariant
            i <= items.len(),
            kept@ == present(items@.take(i as int)),
        decreases items.len() - i,
    {
        proof {
            assert(items@.take(i + 1).drop_last() =~= items@.take(i as int));
        }
        match items[i] {
            Some(item) => kept.push(item),
            None => {},
        }
        i = i + 1;
    }
    proof {
        assert(items@.take(i as int) =~= items@);
    }
    kept
}

/// The instants of the commits of a log, in seconds since the Unix epoch
/// and in the order of the log: of every entry that passes the filter and
/// has a timestamp in the layout of `stamp_format`. Entries with any other
/// timestamp are left out.
pub fn commit_times(log: &str, filter: Option<&str>) -> (times: Vec<i64>)
    ensures
        times@ == present(
            readings(picked(lines_of(log@), filter_text(filter)), "%a %b %d %H:%M:%S%.3f %Y %z"@),
        ),
{
    let stamps = timestamps_in(log, filter);
    let format = stamp_format();
    let mut read: Vec<Option<i64>> = Vec::new();
    let mut i: usize = 0;
    while i < stamps.len()
        invariant
            i <= stamps.len(),
            read@.len() == i,
            forall|j: int| 0 <= j < i ==> read@[j] == parsed_epoch(#[trigger] texts(stamps@)[j], format@),
        decreases stamps.len() - i,
    {
        let seconds = parse_epoch(stamps[i].as_str(), format);
        read.push(seconds);
        i = i + 1;
    }
    proof {
        assert(read@ =~= readings(texts(stamps@), format@));
    }
    keep_present(&read)
}

} // verus!
