//! Loading and validating the four secrets that every signed request needs.
//!
//! A [`CredentialStore`] holds the flat key/value entries read from the
//! user's configuration file.  [`CredentialStore::load`] checks that all
//! four required keys are present with non-empty values and, on success,
//! yields the consumer and access [`Credentials`] pairs.

use vstd::prelude::*;
use vstd::string::StringExecFns;

use crate::text::str_eq;

verus! {

/// An immutable key/secret pair.  Two instances exist per run: the
/// *consumer* pair (identifies the application) and the *access* pair
/// (identifies the authorized user).
#[derive(Clone, Debug, PartialEq, Eq)]
pub struct Credentials {
    pub key: String,
    pub secret: String,
}

impl Credentials {
    /// Both halves of a credential pair must be non-empty.
    pub open spec fn wf(&self) -> bool {
        self.key@.len() > 0 && self.secret@.len() > 0
    }
}

/// A fatal configuration problem: the configuration source could not be
/// read at all, or a required key is absent (or empty).
#[derive(Clone, Debug, PartialEq, Eq)]
pub enum ConfigError {
    MissingFile,
    MissingKey(String),
}

/// What an error message shows for each [`ConfigError`].
pub open spec fn config_error_text(e: ConfigError) -> Seq<char> {
    match e {
        ConfigError::MissingFile => "configuration file is missing or unreadable"@,
        ConfigError::MissingKey(k) => "missing configuration key: "@ + k@,
    }
}

impl ConfigError {
    /// A human-readable description of the error.
    pub fn message(&self) -> (m: String)
        ensures
            m@ == config_error_text(*self),
    {
        match self {
            ConfigError::MissingFile => String::from_str(
                "configuration file is missing or unreadable",
            ),
            ConfigError::MissingKey(k) => String::from_str("missing configuration key: ").concat(
                k.as_str(),
            ),
        }
    }
}

/// First value bound to `key` among `entries`, if any.
pub open spec fn lookup(entries: Seq<(String, String)>, key: Seq<char>) -> Option<Seq<char>>
    decreases entries.len(),
{
    if entries.len() == 0 {
        None
    } else if entries[0].0@ == key {
        Some(entries[0].1@)
    } else {
        lookup(entries.skip(1), key)
    }
}

/// `key` counts as present only when it is bound to a non-empty value.
pub open spec fn has_value(entries: Seq<(String, String)>, key: Seq<char>) -> bool {
    match lookup(entries, key) {
        Some(v) => v.len() > 0,
        None => false,
    }
}

/// The value bound to `key`, or the empty string when `key` is absent.
pub open spec fn value_of(entries: Seq<(String, String)>, key: Seq<char>) -> Seq<char> {
    match lookup(entries, key) {
        Some(v) => v,
        None => Seq::empty(),
    }
}

/// The first of the four required keys that is missing from `entries`,
/// checked in a fixed order, or `None` when all four are present.
pub open spec fn first_missing_key(entries: Seq<(String, String)>) -> Option<Seq<char>> {
    if !has_value(entries, "consumer_key"@) {
        Some("consumer_key"@)
    } else if !has_value(entries, "consumer_secret"@) {
        Some("consumer_secret"@)
    } else if !has_value(entries, "access_token"@) {
        Some("access_token"@)
    } else if !has_value(entries, "access_token_secret"@) {
        Some("access_token_secret"@)
    } else {
        None
    }
}

/// The flat key/value entries of the configuration source.
pub struct CredentialStore {
    pub entries: Vec<(String, String)>,
}

impl View for CredentialStore {
    type V = Seq<(String, String)>;

    open spec fn view(&self) -> Seq<(String, String)> {
        self.entries@
    }
}

impl CredentialStore {
    /// Wrap already-read configuration entries; no validation happens yet.
    pub fn new(entries: Vec<(String, String)>) -> (store: CredentialStore)
        ensures
            store@ == entries@,
    {
        CredentialStore { entries }
    }

    /// First value bound to `key`, if any.
    fn find_value(&self, key: &str) -> (r: Option<String>)
        ensures
            match r {
                Some(v) => lookup(self@, key@) == Some(v@),
                None => lookup(self@, key@) is None,
            },
    {
        let n = self.entries.len();
        let mut i: usize = 0;
        assert(self@.skip(0) =~= self@);
        while i < n
            invariant
                n == self.entries.len(),
                i <= n,
                lookup(self@, key@) == lookup(self@.skip(i as int), key@),
            decreases n - i,
        {
            let entry = &self.entries[i];
            if str_eq(entry.0.as_str(), key) {
                assert(self@.skip(i as int)[0] == self@[i as int]);
                return Some(entry.1.clone());
            }
            assert(self@.skip(i as int).skip(1) =~= self@.skip(i + 1));
            i = i + 1;
        }
        assert(self@.skip(n as int).len() == 0);
        None
    }

    /// The value for `key`, or `ConfigError::MissingKey(key)` when `key`
    /// is absent or bound to an empty value.
    fn require_key(&self, key: &str) -> (r: Result<String, ConfigError>)
        ensures
            match r {
                Ok(v) => has_value(self@, key@) && v@ == value_of(self@, key@),
                Err(e) => {
                    &&& !has_value(self@, key@)
                    &&& e matches ConfigError::MissingKey(k) && k@ == key@
                },
            },
    {
        match self.find_value(key) {
            Some(v) => {
                if v.as_str().is_empty() {
                    Err(ConfigError::MissingKey(String::from_str(key)))
                } else {
                    Ok(v)
                }
            },
            None => Err(ConfigError::MissingKey(String::from_str(key))),
        }
    }

    /// Validate all four required keys and produce the consumer and access
    /// credential pairs.
    ///
    /// Exactly when one of the four keys is absent (or empty) the result is
    /// `ConfigError::MissingKey` naming the first such key; otherwise the
    /// returned pairs carry the configured values verbatim.
    pub fn load(&self) -> (r: Result<(Credentials, Credentials), ConfigError>)
        ensures
            match first_missing_key(self@) {
                Some(missing) => {
                    &&& r matches Err(e)
                    &&& e matches ConfigError::MissingKey(k) && k@ == missing
                },
                None => {
                    &&& r matches Ok(pair)
                    &&& pair.0.key@ == value_of(self@, "consumer_key"@)
                    &&& pair.0.secret@ == value_of(self@, "consumer_secret"@)
                    &&& pair.1.key@ == value_of(self@, "access_token"@)
                    &&& pair.1.secret@ == value_of(self@, "access_token_secret"@)
                    &&& pair.0.wf() && pair.1.wf()
                },
            },
    {
        let consumer_key = match self.require_key("consumer_key") {
            Ok(v) => v,
            Err(e) => { return Err(e); },
        };
        let consumer_secret = match self.require_key("consumer_secret") {
            Ok(v) => v,
            Err(e) => { return Err(e); },
        };
        let access_token = match self.require_key("access_token") {
            Ok(v) => v,
            Err(e) => { return Err(e); },
        };
        let access_token_secret = match self.require_key("access_token_secret") {
            Ok(v) => v,
            Err(e) => { return Err(e); },
        };
        Ok((
            Credentials { key: consumer_key, secret: consumer_secret },
            Credentials { key: access_token, secret: access_token_secret },
        ))
    }
}

} // verus!
