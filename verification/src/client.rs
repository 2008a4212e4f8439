//! OAuth-signed calls against the two fixed endpoints, behind a transport
//! capability.
//!
//! [`SignedClient`] owns the consumer and access credential pairs and
//! decides what to send and how to read what comes back.  The actual
//! signing and network I/O happen behind the [`Transport`] trait, so the
//! contracts here hold for every possible transport outcome.

use vstd::prelude::*;
use vstd::string::StringExecFns;

use crate::credentials::Credentials;
use crate::decode::{decode_timeline, timeline_of};
use crate::timeline::TimelineResult;

verus! {

/// The HTTP method of an outbound request.
#[derive(Clone, Copy, Debug, PartialEq, Eq)]
pub enum Method {
    Get,
    Post,
}

/// Why a request did not produce a usable result.
#[derive(Clone, Debug, PartialEq, Eq)]
pub enum RequestError {
    /// The input was rejected locally, before any network call.
    InvalidInput(String),
    /// Signing or sending the request failed.
    Transport(String),
    /// The response body could not be decoded.
    Decode(String),
}

/// What an error message shows for each [`RequestError`].
pub open spec fn request_error_text(e: RequestError) -> Seq<char> {
    match e {
        RequestError::InvalidInput(m) => m@,
        RequestError::Transport(d) => "request failed: "@ + d@,
        RequestError::Decode(d) => "could not decode response: "@ + d@,
    }
}

impl RequestError {
    /// A human-readable description of the error.
    pub fn message(&self) -> (m: String)
        ensures
            m@ == request_error_text(*self),
    {
        match self {
            RequestError::InvalidInput(s) => s.clone(),
            RequestError::Transport(d) => String::from_str("request failed: ").concat(d.as_str()),
            RequestError::Decode(d) => String::from_str("could not decode response: ").concat(
                d.as_str(),
            ),
        }
    }
}

/// The capability that performs an OAuth 1.0a signed request and returns
/// the raw response bytes, or a description of the failure.  The real
/// implementation signs and talks to the network; tests substitute a
/// deterministic stub.  Nothing is assumed of its outcome.
pub trait Transport {
    fn sign_and_send(
        &mut self,
        method: Method,
        url: &str,
        consumer: &Credentials,
        access: &Credentials,
        params: &Vec<(String, String)>,
    ) -> Result<Vec<u8>, String>;
}

/// The fixed home-timeline endpoint.
pub open spec fn home_timeline_url_text() -> Seq<char> {
    "https://api.twitter.com/1.1/statuses/home_timeline.json"@
}

/// The fixed status-update endpoint.
pub open spec fn statuses_update_url_text() -> Seq<char> {
    "https://api.twitter.com/1.1/statuses/update.json"@
}

/// The fixed home-timeline endpoint.
pub fn home_timeline_url() -> (u: &'static str)
    ensures
        u@ == home_timeline_url_text(),
{
    "https://api.twitter.com/1.1/statuses/home_timeline.json"
}

/// The fixed status-update endpoint.
pub fn statuses_update_url() -> (u: &'static str)
    ensures
        u@ == statuses_update_url_text(),
{
    "https://api.twitter.com/1.1/statuses/update.json"
}

/// The single `count` parameter of a timeline fetch, carrying the given
/// value verbatim: no parsing, clamping, or validation of it happens
/// locally.
pub fn timeline_params(count: &str) -> (params: Vec<(String, String)>)
    ensures
        params@.len() == 1,
        params@[0].0@ == "count"@,
        params@[0].1@ == count@,
{
    let mut params: Vec<(String, String)> = Vec::new();
    params.push((String::from_str("count"), String::from_str(count)));
    params
}

/// The single `status` parameter of a status update, carrying the given
/// text verbatim.
pub fn status_params(text: &str) -> (params: Vec<(String, String)>)
    ensures
        params@.len() == 1,
        params@[0].0@ == "status"@,
        params@[0].1@ == text@,
{
    let mut params: Vec<(String, String)> = Vec::new();
    params.push((String::from_str("status"), String::from_str(text)));
    params
}

/// Decide success or failure of a status update from the transport's
/// outcome alone: the response body is not inspected further.
pub fn post_outcome(resp: Result<Vec<u8>, String>) -> (r: Result<(), RequestError>)
    ensures
        resp is Ok <==> r is Ok,
        resp matches Err(d) ==> (r matches Err(e) && e matches RequestError::Transport(m) && m@
            == d@),
{
    match resp {
        Ok(_) => Ok(()),
        Err(d) => Err(RequestError::Transport(d)),
    }
}

/// Owns the two credential pairs and performs the two signed operations.
pub struct SignedClient {
    pub consumer: Credentials,
    pub access: Credentials,
}

impl SignedClient {
    /// Both credential pairs are well-formed.
    pub open spec fn wf(&self) -> bool {
        self.consumer.wf() && self.access.wf()
    }

    /// Store the two credential pairs; no I/O happens here.
    pub fn new(consumer: Credentials, access: Credentials) -> (client: SignedClient)
        requires
            consumer.wf(),
            access.wf(),
        ensures
            client.consumer == consumer,
            client.access == access,
            client.wf(),
    {
        SignedClient { consumer, access }
    }

    /// Fetch one page of the home timeline.
    ///
    /// The `count` value is passed through as an opaque string parameter.
    /// A transport failure surfaces as `Transport`, an undecodable body as
    /// `Decode`; a successful result is exactly the decoding of some
    /// response body, and an empty timeline is a valid result, never an
    /// error.
    pub fn fetch_timeline<T: Transport>(&self, transport: &mut T, count: &str) -> (r: Result<
        TimelineResult,
        RequestError,
    >)
        ensures
            r matches Err(e) ==> (e is Transport || e is Decode),
            r matches Ok(tl) ==> exists|bytes: Seq<u8>| timeline_of(bytes) == Some(tl@),
    {
        let params = timeline_params(count);
        let resp = transport.sign_and_send(
            Method::Get,
            home_timeline_url(),
            &self.consumer,
            &self.access,
            &params,
        );
        match resp {
            Ok(bytes) => {
                let ghost b = bytes@;
                match decode_timeline(bytes) {
                    Ok(tl) => {
                        proof {
                            assert(timeline_of(b) == Some(tl@));
                        }
                        Ok(tl)
                    },
                    Err(e) => Err(e),
                }
            },
            Err(detail) => Err(RequestError::Transport(detail)),
        }
    }

    /// Post a status update.
    ///
    /// An empty status is rejected locally with `InvalidInput`, before any
    /// network call: the transport is left untouched.  A non-empty status
    /// is sent, and the result is success exactly when the transport
    /// succeeded; its failure detail is surfaced as `Transport`.
    pub fn post_status<T: Transport>(&self, transport: &mut T, text: &str) -> (r: Result<
        (),
        RequestError,
    >)
        ensures
            text@.len() == 0 ==> {
                &&& r matches Err(e)
                &&& e matches RequestError::InvalidInput(m) && m@ == "status required"@
                &&& *final(transport) == *old(transport)
            },
            r is Ok ==> text@.len() > 0,
            text@.len() > 0 ==> (r matches Err(e) ==> e matches RequestError::Transport(_)),
    {
        if text.is_empty() {
            return Err(RequestError::InvalidInput(String::from_str("status required")));
        }
        let params = status_params(text);
        let resp = transport.sign_and_send(
            Method::Post,
            statuses_update_url(),
            &self.consumer,
            &self.access,
            &params,
        );
        post_outcome(resp)
    }
}

} // verus!
