use twcli::present::format_timeline;
use twcli::text::unescape;
use twcli::timeline::{TimelineResult, TweetRecord};

fn record(
    user_name: Option<&str>,
    text: Option<&str>,
    created_at: Option<&str>,
) -> TweetRecord {
    TweetRecord {
        user_name: user_name.map(str::to_string),
        text: text.map(str::to_string),
        created_at: created_at.map(str::to_string),
    }
}

#[test]
fn unescape_rewrites_newline_escapes() {
    assert_eq!(unescape("hi\\nthere"), "hi\nthere");
}

#[test]
fn unescape_rewrites_tab_escapes() {
    assert_eq!(unescape("a\\tb"), "a\tb");
}

#[test]
fn unescape_handles_mixed_and_repeated_escapes() {
    assert_eq!(unescape("\\n\\t\\n"), "\n\t\n");
}

#[test]
fn unescape_leaves_other_sequences_alone() {
    assert_eq!(unescape("a\\xb"), "a\\xb");
    assert_eq!(unescape("back\\"), "back\\");
    assert_eq!(unescape("plain"), "plain");
    assert_eq!(unescape(""), "");
}

#[test]
fn empty_timeline_formats_as_one_line() {
    let timeline = TimelineResult {
        records: Vec::new(),
    };
    assert_eq!(format_timeline(&timeline), vec!["No tweets.".to_string()]);
}

#[test]
fn each_record_formats_as_six_lines() {
    let timeline = TimelineResult {
        records: vec![
            record(Some("Alice"), Some("first"), Some("yesterday")),
            record(Some("Bob"), Some("second"), Some("today")),
        ],
    };
    let lines = format_timeline(&timeline);
    assert_eq!(lines.len(), 12);
    assert_eq!(lines[0], "Alice");
    assert_eq!(lines[2], "first");
    assert_eq!(lines[4], "yesterday");
    assert_eq!(lines[5], "-".repeat(102));
    assert_eq!(lines[6], "Bob");
    assert_eq!(lines[8], "second");
    assert_eq!(lines[10], "today");
    assert_eq!(lines[11], "-".repeat(102));
}

#[test]
fn absent_fields_render_as_empty_lines() {
    let timeline = TimelineResult {
        records: vec![record(None, None, None)],
    };
    let lines = format_timeline(&timeline);
    assert_eq!(
        lines,
        vec![
            String::new(),
            String::new(),
            String::new(),
            String::new(),
            String::new(),
            "-".repeat(102),
        ]
    );
}

#[test]
fn formatting_does_not_change_the_timeline() {
    let timeline = TimelineResult {
        records: vec![record(Some("Alice"), Some("hi"), Some("now"))],
    };
    let before = timeline.clone();
    let _ = format_timeline(&timeline);
    assert_eq!(timeline, before);
}
