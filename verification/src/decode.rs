//! Decoding a response body into a [`TimelineResult`]: UTF-8 text first,
//! then a JSON array of tweet-like objects.
//!
//! The JSON value tree itself stays outside this crate; what each record's
//! relevant fields hold is captured by the name [`tweet_rows_of`], and
//! everything from the decoded records on is verified.

use vstd::prelude::*;
use vstd::string::StringExecFns;
use vstd::utf8::{decode_utf8, valid_utf8};

use crate::client::RequestError;
use crate::timeline::{TimelineResult, TweetRecord, TweetView};

verus! {

/// What parsing `text` as a JSON array of tweet-like objects yields:
/// `None` when `text` is not such an array, otherwise the `user.name`,
/// `text` and `created_at` string fields of each element in order, absent
/// fields as `None`.  The outcome depends on `text` alone.
pub uninterp spec fn tweet_rows_of(text: Seq<char>) -> Option<Seq<TweetView>>;

/// Relies on `serde_json::from_str` to parse the text as a JSON array,
/// and on `serde_json::Value::get` / `Value::as_str` to read the
/// `user.name`, `text` and `created_at` string fields of each element;
/// the parse and the field reads depend on the input text alone.
#[verifier::external_body]
fn parse_tweet_records(text: &str) -> (r: Option<Vec<TweetRecord>>)
    ensures
        match r {
            Some(records) => tweet_rows_of(text@) == Some(records.deep_view()),
            None => tweet_rows_of(text@) is None,
        },
{
    let values: Vec<serde_json::Value> = match serde_json::from_str(text) {
        Ok(v) => v,
        Err(_) => return None,
    };
    let field = |v: &serde_json::Value| v.as_str().map(|s| s.to_owned());
    Some(values.iter().map(|v| TweetRecord {
        user_name: v.get("user").and_then(|u| u.get("name")).and_then(|n| field(n)),
        text: v.get("text").and_then(|t| field(t)),
        created_at: v.get("created_at").and_then(|c| field(c)),
    }).collect())
}

/// Relies on `String::from_utf8`: it succeeds exactly on valid UTF-8
/// input, and then returns the string whose characters are the decoding
/// of the bytes.
#[verifier::external_body]
fn utf8_to_string(bytes: Vec<u8>) -> (r: Option<String>)
    ensures
        r is Some <==> valid_utf8(bytes@),
        r matches Some(s) ==> s@ == decode_utf8(bytes@),
{
    String::from_utf8(bytes).ok()
}

/// What a whole response body decodes to: its bytes read as UTF-8 text,
/// the text parsed as a JSON array of tweet-like objects.
pub open spec fn timeline_of(bytes: Seq<u8>) -> Option<Seq<TweetView>> {
    if valid_utf8(bytes) {
        tweet_rows_of(decode_utf8(bytes))
    } else {
        None
    }
}

/// Decode a response body into a timeline.
///
/// Succeeds exactly when the bytes are valid UTF-8 that parses as a JSON
/// array of tweet-like objects, and then returns exactly those records;
/// otherwise the result is a `Decode` error.
pub fn decode_timeline(bytes: Vec<u8>) -> (r: Result<TimelineResult, RequestError>)
    ensures
        timeline_of(bytes@) matches Some(rows) ==> (r matches Ok(tl) && tl@ == rows),
        timeline_of(bytes@) is None ==> (r matches Err(e) && e is Decode),
{
    let text = match utf8_to_string(bytes) {
        Some(t) => t,
        None => {
            return Err(
                RequestError::Decode(String::from_str("response body is not valid UTF-8")),
            );
        },
    };
    match parse_tweet_records(text.as_str()) {
        Some(records) => Ok(TimelineResult { records }),
        None => Err(
            RequestError::Decode(
                String::from_str("response body is not a JSON array of tweets"),
            ),
        ),
    }
}

} // verus!
