//! Resolving a subcommand into one of the two client operations and
//! running it.
//!
//! [`route`] maps the invoked subcommand (long form or short alias) and
//! its optional positional argument to a [`Command`], applying the
//! default count.  [`execute`] then drives the chosen operation and
//! collects the lines to show, together with whether the run succeeded.

use vstd::prelude::*;
use vstd::string::StringExecFns;

use crate::client::{SignedClient, Transport};
use crate::credentials::{first_missing_key, CredentialStore};
use crate::present::{format_timeline, line_views, render_timeline};
use crate::text::str_eq;
use crate::timeline::TweetView;

verus! {

/// What one process run was asked to do.
#[derive(Debug, PartialEq, Eq)]
pub enum Command {
    /// Show the home timeline, fetching `count` entries.
    Timeline { count: String },
    /// Post `status` as a new tweet.
    Tweet { status: String },
    /// A tweet was requested without the required status argument.
    NeedStatus,
    /// No subcommand, or an unknown one: show usage and do nothing.
    Usage,
}

/// The mathematical image of a [`Command`].
pub ghost enum CommandView {
    Timeline { count: Seq<char> },
    Tweet { status: Seq<char> },
    NeedStatus,
    Usage,
}

impl View for Command {
    type V = CommandView;

    open spec fn view(&self) -> CommandView {
        match self {
            Command::Timeline { count } => CommandView::Timeline { count: count@ },
            Command::Tweet { status } => CommandView::Tweet { status: status@ },
            Command::NeedStatus => CommandView::NeedStatus,
            Command::Usage => CommandView::Usage,
        }
    }
}

/// The view of an optional string slice.
pub open spec fn opt_text(s: Option<&str>) -> Option<Seq<char>> {
    match s {
        Some(x) => Some(x@),
        None => None,
    }
}

/// The count used when the timeline subcommand has no argument.
pub open spec fn default_count_text() -> Seq<char> {
    "20"@
}

/// Where each subcommand leads: `timeline`/`tl` fetch the timeline with
/// the argument as count, defaulting to `"20"`; `tweet`/`tw` post the
/// argument as status and require one; everything else is usage.
pub open spec fn route_spec(sub: Option<Seq<char>>, arg: Option<Seq<char>>) -> CommandView {
    match sub {
        None => CommandView::Usage,
        Some(s) => if s == "timeline"@ || s == "tl"@ {
            CommandView::Timeline {
                count: match arg {
                    Some(a) => a,
                    None => default_count_text(),
                },
            }
        } else if s == "tweet"@ || s == "tw"@ {
            match arg {
                Some(a) => CommandView::Tweet { status: a },
                None => CommandView::NeedStatus,
            }
        } else {
            CommandView::Usage
        },
    }
}

/// Resolve the invoked subcommand and its optional positional argument,
/// exactly as [`route_spec`] describes.  An argument is passed through
/// verbatim, with no numeric coercion.
pub fn route(subcommand: Option<&str>, arg: Option<&str>) -> (c: Command)
    ensures
        c@ == route_spec(opt_text(subcommand), opt_text(arg)),
{
    match subcommand {
        None => Command::Usage,
        Some(sub) => {
            if str_eq(sub, "timeline") || str_eq(sub, "tl") {
                let count = match arg {
                    Some(a) => String::from_str(a),
                    None => String::from_str("20"),
                };
                Command::Timeline { count }
            } else if str_eq(sub, "tweet") || str_eq(sub, "tw") {
                match arg {
                    Some(a) => Command::Tweet { status: String::from_str(a) },
                    None => Command::NeedStatus,
                }
            } else {
                Command::Usage
            }
        },
    }
}

/// The usage line shown when no known subcommand was given.
pub open spec fn usage_text() -> Seq<char> {
    "usage: twcli timeline(tl) [count] | twcli tweet(tw) <status>"@
}

/// The line shown when a tweet was requested without a status.
pub open spec fn need_status_text() -> Seq<char> {
    "Need status."@
}

/// The line shown after a successful status update.
pub open spec fn success_text() -> Seq<char> {
    "Success."@
}

/// What one run printed, and whether it succeeded.  An informative no-op
/// (usage, an empty timeline) counts as success; a configuration error, a
/// missing status, or any request failure does not.
pub struct RunReport {
    pub lines: Vec<String>,
    pub ok: bool,
}

/// One vector holding a single line.
fn one_line(line: String) -> (lines: Vec<String>)
    ensures
        line_views(lines@) == seq![line@],
        lines@.len() == 1,
{
    let mut lines: Vec<String> = Vec::new();
    lines.push(line);
    proof {
        assert(line_views(lines@) =~= seq![line@]);
    }
    lines
}

/// Run `cmd` against the given configuration and transport.
///
/// Usage and the missing-status complaint touch neither.  The two real
/// operations first validate the configuration — on a missing key the
/// report carries that error and nothing is sent — and then build a
/// [`SignedClient`] and perform the call, piping a fetched timeline
/// through the presenter and reporting any request error as a single
/// line.
pub fn execute<T: Transport>(cmd: &Command, store: &CredentialStore, transport: &mut T) -> (rep:
    RunReport)
    ensures
        cmd@ is Usage ==> rep.ok && line_views(rep.lines@) == seq![usage_text()],
        cmd@ is NeedStatus ==> !rep.ok && line_views(rep.lines@) == seq![need_status_text()],
        cmd@ is Usage || cmd@ is NeedStatus ==> *final(transport) == *old(transport),
        cmd@ is Timeline || cmd@ is Tweet ==> (first_missing_key(store@) matches Some(k) ==> {
            &&& !rep.ok
            &&& line_views(rep.lines@) == seq!["missing configuration key: "@ + k]
            &&& *final(transport) == *old(transport)
        }),
        cmd@ matches CommandView::Tweet { status } ==> (first_missing_key(store@) is None ==> {
            &&& status.len() == 0 ==> {
                &&& !rep.ok
                &&& line_views(rep.lines@) == seq!["status required"@]
                &&& *final(transport) == *old(transport)
            }
            &&& status.len() > 0 && rep.ok ==> line_views(rep.lines@) == seq![success_text()]
            &&& status.len() > 0 && !rep.ok ==> exists|d: Seq<char>|
                line_views(rep.lines@) == seq!["request failed: "@ + d]
        }),
        cmd@ is Timeline && first_missing_key(store@) is None ==> {
            &&& rep.ok ==> exists|rows: Seq<TweetView>|
                line_views(rep.lines@) == render_timeline(rows)
            &&& !rep.ok ==> rep.lines@.len() == 1
        },
{
    match cmd {
        Command::Usage => RunReport {
            lines: one_line(
                String::from_str("usage: twcli timeline(tl) [count] | twcli tweet(tw) <status>"),
            ),
            ok: true,
        },
        Command::NeedStatus => RunReport {
            lines: one_line(String::from_str("Need status.")),
            ok: false,
        },
        Command::Timeline { count } => {
            match store.load() {
                Err(e) => RunReport { lines: one_line(e.message()), ok: false },
                Ok((consumer, access)) => {
                    let client = SignedClient::new(consumer, access);
                    match client.fetch_timeline(transport, count.as_str()) {
                        Ok(tl) => {
                            let lines = format_timeline(&tl);
                            proof {
                                assert(line_views(lines@) == render_timeline(tl@));
                            }
                            RunReport { lines, ok: true }
                        },
                        Err(e) => RunReport { lines: one_line(e.message()), ok: false },
                    }
                },
            }
        },
        Command::Tweet { status } => {
            match store.load() {
                Err(e) => RunReport { lines: one_line(e.message()), ok: false },
                Ok((consumer, access)) => {
                    let client = SignedClient::new(consumer, access);
                    match client.post_status(transport, status.as_str()) {
                        Ok(_) => RunReport {
                            lines: one_line(String::from_str("Success.")),
                            ok: true,
                        },
                        Err(e) => RunReport { lines: one_line(e.message()), ok: false },
                    }
                },
            }
        },
    }
}

} // verus!
