use twcli::client::{Method, Transport};
use twcli::credentials::{Credentials, CredentialStore};
use twcli::router::{execute, route, Command};

struct StubTransport {
    response: Result<Vec<u8>, String>,
    calls: usize,
}

impl Transport for StubTransport {
    fn sign_and_send(
        &mut self,
        _method: Method,
        _url: &str,
        _consumer: &Credentials,
        _access: &Credentials,
        _params: &Vec<(String, String)>,
    ) -> Result<Vec<u8>, String> {
        self.calls += 1;
        self.response.clone()
    }
}

fn stub(response: Result<Vec<u8>, String>) -> StubTransport {
    StubTransport { response, calls: 0 }
}

fn valid_store() -> CredentialStore {
    CredentialStore::new(vec![
        ("consumer_key".to_string(), "ck".to_string()),
        ("consumer_secret".to_string(), "cs".to_string()),
        ("access_token".to_string(), "at".to_string()),
        ("access_token_secret".to_string(), "ats".to_string()),
    ])
}

#[test]
fn route_defaults_the_timeline_count_to_twenty() {
    assert_eq!(
        route(Some("timeline"), None),
        Command::Timeline {
            count: "20".to_string()
        }
    );
}

#[test]
fn route_passes_an_explicit_count_through_verbatim() {
    assert_eq!(
        route(Some("timeline"), Some("5")),
        Command::Timeline {
            count: "5".to_string()
        }
    );
    assert_eq!(
        route(Some("tl"), Some("007")),
        Command::Timeline {
            count: "007".to_string()
        }
    );
}

#[test]
fn route_accepts_both_tweet_forms() {
    assert_eq!(
        route(Some("tweet"), Some("hello")),
        Command::Tweet {
            status: "hello".to_string()
        }
    );
    assert_eq!(
        route(Some("tw"), Some("hello")),
        Command::Tweet {
            status: "hello".to_string()
        }
    );
}

#[test]
fn route_demands_a_status_for_tweets() {
    assert_eq!(route(Some("tweet"), None), Command::NeedStatus);
    assert_eq!(route(Some("tw"), None), Command::NeedStatus);
}

#[test]
fn route_maps_everything_else_to_usage() {
    assert_eq!(route(None, None), Command::Usage);
    assert_eq!(route(Some("retweet"), None), Command::Usage);
    assert_eq!(route(Some("TIMELINE"), None), Command::Usage);
}

#[test]
fn execute_usage_prints_usage_and_succeeds() {
    let mut transport = stub(Ok(b"[]".to_vec()));
    let report = execute(&Command::Usage, &valid_store(), &mut transport);
    assert!(report.ok);
    assert_eq!(
        report.lines,
        vec!["usage: twcli timeline(tl) [count] | twcli tweet(tw) <status>".to_string()]
    );
    assert_eq!(transport.calls, 0);
}

#[test]
fn execute_need_status_complains_and_fails() {
    let mut transport = stub(Ok(b"[]".to_vec()));
    let report = execute(&Command::NeedStatus, &valid_store(), &mut transport);
    assert!(!report.ok);
    assert_eq!(report.lines, vec!["Need status.".to_string()]);
    assert_eq!(transport.calls, 0);
}

#[test]
fn execute_reports_a_missing_key_before_any_call() {
    let store = CredentialStore::new(vec![(
        "consumer_key".to_string(),
        "ck".to_string(),
    )]);
    let mut transport = stub(Ok(b"[]".to_vec()));
    let report = execute(
        &Command::Timeline {
            count: "20".to_string(),
        },
        &store,
        &mut transport,
    );
    assert!(!report.ok);
    assert_eq!(
        report.lines,
        vec!["missing configuration key: consumer_secret".to_string()]
    );
    assert_eq!(transport.calls, 0);
}

#[test]
fn execute_timeline_pipes_the_result_through_the_presenter() {
    let mut transport = stub(Ok(b"[]".to_vec()));
    let report = execute(
        &Command::Timeline {
            count: "20".to_string(),
        },
        &valid_store(),
        &mut transport,
    );
    assert!(report.ok);
    assert_eq!(report.lines, vec!["No tweets.".to_string()]);
    assert_eq!(transport.calls, 1);
}

#[test]
fn execute_tweet_reports_success() {
    let mut transport = stub(Ok(b"{}".to_vec()));
    let report = execute(
        &Command::Tweet {
            status: "hello world".to_string(),
        },
        &valid_store(),
        &mut transport,
    );
    assert!(report.ok);
    assert_eq!(report.lines, vec!["Success.".to_string()]);
    assert_eq!(transport.calls, 1);
}

#[test]
fn execute_tweet_reports_a_transport_failure_without_raising() {
    let mut transport = stub(Err("boom".to_string()));
    let report = execute(
        &Command::Tweet {
            status: "hello world".to_string(),
        },
        &valid_store(),
        &mut transport,
    );
    assert!(!report.ok);
    assert_eq!(report.lines, vec!["request failed: boom".to_string()]);
}

#[test]
fn execute_tweet_rejects_an_empty_status_locally() {
    let mut transport = stub(Ok(b"{}".to_vec()));
    let report = execute(
        &Command::Tweet {
            status: String::new(),
        },
        &valid_store(),
        &mut transport,
    );
    assert!(!report.ok);
    assert_eq!(report.lines, vec!["status required".to_string()]);
    assert_eq!(transport.calls, 0);
}
