//! Rendering a timeline as lines of text for a terminal.
//!
//! An empty timeline becomes a single "no tweets" line.  Every record
//! becomes six lines: the author name (empty when absent), a blank line,
//! the tweet text with literal `\n` / `\t` escapes humanized, a blank
//! line, the creation timestamp verbatim, and a separator.

use vstd::prelude::*;
use vstd::string::StringExecFns;

use crate::text::{unescape, unescaped};
use crate::timeline::{TimelineResult, TweetRecord, TweetView};

verus! {

/// The views of a sequence of display lines.
pub open spec fn line_views(lines: Seq<String>) -> Seq<Seq<char>> {
    lines.map_values(|s: String| s@)
}

/// The line shown for an empty timeline.
pub open spec fn no_tweets_text() -> Seq<char> {
    "No tweets."@
}

/// The separator printed after each record.
pub open spec fn separator_text() -> Seq<char> {
    "------------------------------------------------------------------------------------------------------"@
}

/// An optional field, with absence rendered as the empty string.
pub open spec fn or_empty(field: Option<Seq<char>>) -> Seq<char> {
    match field {
        Some(s) => s,
        None => Seq::empty(),
    }
}

/// The six display lines of one record.
pub open spec fn record_lines(t: TweetView) -> Seq<Seq<char>> {
    seq![
        or_empty(t.user_name),
        Seq::empty(),
        unescaped(or_empty(t.text)),
        Seq::empty(),
        or_empty(t.created_at),
        separator_text(),
    ]
}

/// The display lines of the records from position `i` on.
pub open spec fn render_from(rows: Seq<TweetView>, i: int) -> Seq<Seq<char>>
    decreases rows.len() - i,
{
    if i < 0 || i >= rows.len() {
        Seq::empty()
    } else {
        record_lines(rows[i]) + render_from(rows, i + 1)
    }
}

/// All display lines of a timeline: one "no tweets" line when it is
/// empty, otherwise the lines of every record in order.
pub open spec fn render_timeline(rows: Seq<TweetView>) -> Seq<Seq<char>> {
    if rows.len() == 0 {
        seq![no_tweets_text()]
    } else {
        render_from(rows, 0)
    }
}

/// The field's value, or a fresh empty string when it is absent.
fn clone_or_empty(field: &Option<String>) -> (r: String)
    ensures
        r@ == or_empty(field.deep_view()),
{
    match field {
        Some(s) => s.clone(),
        None => String::new(),
    }
}

/// Append the six display lines of `record` to `lines`.
fn push_record_lines(lines: &mut Vec<String>, record: &TweetRecord)
    ensures
        line_views(final(lines)@) == line_views(old(lines)@) + record_lines(record@),
{
    let ghost initial = lines@;
    lines.push(clone_or_empty(&record.user_name));
    lines.push(String::new());
    let text = match &record.text {
        Some(s) => unescape(s.as_str()),
        None => String::new(),
    };
    lines.push(text);
    lines.push(String::new());
    lines.push(clone_or_empty(&record.created_at));
    lines.push(String::from_str(
        "------------------------------------------------------------------------------------------------------",
    ));
    proof {
        assert(line_views(lines@) =~= line_views(initial) + record_lines(record@));
    }
}

/// Render `result` as display lines, exactly as [`render_timeline`]
/// describes.  The timeline itself is not changed.
pub fn format_timeline(result: &TimelineResult) -> (lines: Vec<String>)
    ensures
        line_views(lines@) == render_timeline(result@),
{
    let mut lines: Vec<String> = Vec::new();
    let n = result.records.len();
    if n == 0 {
        lines.push(String::from_str("No tweets."));
        proof {
            assert(line_views(lines@) =~= seq![no_tweets_text()]);
        }
        return lines;
    }
    let mut i: usize = 0;
    proof {
        assert(line_views(lines@) + render_from(result@, 0) =~= render_from(result@, 0));
    }
    while i < n
        invariant
            n == result.records.len(),
            i <= n,
            line_views(lines@) + render_from(result@, i as int) == render_from(result@, 0),
        decreases n - i,
    {
        let ghost before = lines@;
        assert(result@[i as int] == result.records[i as int]@);
        push_record_lines(&mut lines, &result.records[i]);
        proof {
            assert(line_views(before) + (record_lines(result@[i as int]) + render_from(
                result@,
                i + 1,
            )) =~= (line_views(before) + record_lines(result@[i as int])) + render_from(
                result@,
                i + 1,
            ));
        }
        i = i + 1;
    }
    proof {
        assert(line_views(lines@) + render_from(result@, n as int) =~= line_views(lines@));
    }
    lines
}

} // verus!
