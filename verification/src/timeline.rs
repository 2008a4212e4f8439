//! Tweet records and timelines, as the plain values this crate reasons
//! about.
//!
//! A tweet arrives as a loosely-typed JSON object; only the three string
//! fields the presenter reads are kept, each optional because the upstream
//! schema is not enforced.

use vstd::prelude::*;

verus! {

/// The fields of one tweet-like record that this client displays.
/// Absent fields stay `None`; reading them never fails.
#[derive(Clone, Debug, PartialEq, Eq)]
pub struct TweetRecord {
    pub user_name: Option<String>,
    pub text: Option<String>,
    pub created_at: Option<String>,
}

/// The mathematical image of a [`TweetRecord`].
pub ghost struct TweetView {
    pub user_name: Option<Seq<char>>,
    pub text: Option<Seq<char>>,
    pub created_at: Option<Seq<char>>,
}

impl View for TweetRecord {
    type V = TweetView;

    open spec fn view(&self) -> TweetView {
        TweetView {
            user_name: self.user_name.deep_view(),
            text: self.text.deep_view(),
            created_at: self.created_at.deep_view(),
        }
    }
}

impl DeepView for TweetRecord {
    type V = TweetView;

    open spec fn deep_view(&self) -> TweetView {
        self.view()
    }
}

/// An ordered sequence of tweet records, possibly empty, in the order the
/// API returned them.
#[derive(Clone, Debug, PartialEq, Eq)]
pub struct TimelineResult {
    pub records: Vec<TweetRecord>,
}

impl View for TimelineResult {
    type V = Seq<TweetView>;

    open spec fn view(&self) -> Seq<TweetView> {
        self.records.deep_view()
    }
}

impl TimelineResult {
    /// How many records the timeline holds.
    pub fn len(&self) -> (n: usize)
        ensures
            n == self@.len(),
    {
        self.records.len()
    }
}

} // verus!
