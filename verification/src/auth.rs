//! The credential store: an optional secret and the rules for loading it
//! from the configuration file.

use vstd::prelude::*;
use crate::toml_text::{entry, entry_text, error_message, parse_toml, toml_document, toml_error_message, toml_member, toml_shape, toml_text, TomlShape};

verus! {

/// Why authentication failed.
#[derive(Clone, Debug, PartialEq, Eq)]
pub enum AuthenticateError {
    /// The configuration file is missing, or holds no secret.
    CredentialsNotFound,
    /// The configuration file could not be read, or is malformed.
    Other(String),
}

/// What an authentication failure holds.
pub enum AuthenticateErrorView {
    CredentialsNotFound,
    Other(Seq<char>),
}

impl View for AuthenticateError {
    type V = AuthenticateErrorView;

    open spec fn view(&self) -> AuthenticateErrorView {
        match self {
            AuthenticateError::CredentialsNotFound => AuthenticateErrorView::CredentialsNotFound,
            AuthenticateError::Other(message) => AuthenticateErrorView::Other(message@),
        }
    }
}

/// The outcome of an authentication, with the text of a failure as a
/// sequence of characters.
pub open spec fn outcome_of(result: Result<(), AuthenticateError>) -> Result<
    (),
    AuthenticateErrorView,
> {
    match result {
        Ok(()) => Ok(()),
        Err(error) => Err(error@),
    }
}

/// What reading the configuration file came to.
#[derive(Clone, Debug, PartialEq, Eq)]
pub enum ConfigFile {
    /// There is no such file.
    Missing,
    /// The file exists but could not be read; the text says why.
    Unreadable(String),
    /// The text of the file.
    Contents(String),
}

/// What reading the configuration file came to.
pub enum ConfigFileView {
    Missing,
    Unreadable(Seq<char>),
    Contents(Seq<char>),
}

impl View for ConfigFile {
    type V = ConfigFileView;

    open spec fn view(&self) -> ConfigFileView {
        match self {
            ConfigFile::Missing => ConfigFileView::Missing,
            ConfigFile::Unreadable(reason) => ConfigFileView::Unreadable(reason@),
            ConfigFile::Contents(text) => ConfigFileView::Contents(text@),
        }
    }
}

/// What looking for the secret came to.
#[derive(Clone, Debug, PartialEq, Eq)]
pub enum CredentialLookup {
    /// There is no configuration file.
    NoFile,
    /// The file could not be read or parsed, or its key is not text.
    Failed(String),
    /// The file is well formed and has no key.
    NoKey,
    /// The secret.
    Key(String),
}

/// What looking for the secret came to.
pub enum CredentialLookupView {
    NoFile,
    Failed(Seq<char>),
    NoKey,
    Key(Seq<char>),
}

impl View for CredentialLookup {
    type V = CredentialLookupView;

    open spec fn view(&self) -> CredentialLookupView {
        match self {
            CredentialLookup::NoFile => CredentialLookupView::NoFile,
            CredentialLookup::Failed(reason) => CredentialLookupView::Failed(reason@),
            CredentialLookup::NoKey => CredentialLookupView::NoKey,
            CredentialLookup::Key(key) => CredentialLookupView::Key(key@),
        }
    }
}

/// The directory of the configuration file, below the home directory.
pub const CONFIG_DIR: &'static str = ".codex";

/// The name of the configuration file in its directory.
pub const CONFIG_FILE: &'static str = "config.toml";

/// The key of the configuration file under which the secret stands.
pub const API_KEY_FIELD: &'static str = "api_key";

/// The reason of the failure for a key whose value is not text.
pub const KEY_NOT_TEXT: &'static str = "invalid type for `api_key`: expected a string";

/// What the text of a configuration file holds for the secret.
///
/// A text that is no TOML document fails with the parser's message. A
/// document without the key holds no secret. A key with text is the secret,
/// and a key with any other value fails.
pub open spec fn lookup_in(contents: Seq<char>) -> CredentialLookupView {
    match toml_document(contents) {
        Err(error) => CredentialLookupView::Failed(toml_error_message(error)),
        Ok(document) => match toml_member(document, API_KEY_FIELD@) {
            None => CredentialLookupView::NoKey,
            Some(value) => match toml_text(value) {
                Some(key) => CredentialLookupView::Key(key),
                None => CredentialLookupView::Failed(KEY_NOT_TEXT@),
            },
        },
    }
}

/// What a read of the configuration file holds for the secret.
pub open spec fn lookup_of(file: ConfigFileView) -> CredentialLookupView {
    match file {
        ConfigFileView::Missing => CredentialLookupView::NoFile,
        ConfigFileView::Unreadable(reason) => CredentialLookupView::Failed(reason),
        ConfigFileView::Contents(text) => lookup_in(text),
    }
}

/// One authentication: the secret held afterwards, and the outcome.
///
/// A store that holds a secret keeps it and succeeds, whatever was found. An
/// empty store takes the secret that was found; where none was found it stays
/// empty and fails.
pub open spec fn auth_step(held: Option<Seq<char>>, found: CredentialLookupView) -> (
    Option<Seq<char>>,
    Result<(), AuthenticateErrorView>,
) {
    if held is Some {
        (held, Ok(()))
    } else {
        match found {
            CredentialLookupView::NoFile => (None, Err(AuthenticateErrorView::CredentialsNotFound)),
            CredentialLookupView::Failed(reason) => (None, Err(AuthenticateErrorView::Other(reason))),
            CredentialLookupView::NoKey => (None, Err(AuthenticateErrorView::CredentialsNotFound)),
            CredentialLookupView::Key(key) => (Some(key), Ok(())),
        }
    }
}

/// Looks for the secret in what was read of the configuration file.
pub fn read_credentials(file: ConfigFile) -> (found: CredentialLookup)
    ensures
        found@ == lookup_of(file@),
{
    match file {
        ConfigFile::Missing => CredentialLookup::NoFile,
        ConfigFile::Unreadable(reason) => CredentialLookup::Failed(reason),
        ConfigFile::Contents(text) => match parse_toml(text.as_str()) {
            Err(error) => CredentialLookup::Failed(error_message(&error)),
            Ok(document) => match entry(&document, API_KEY_FIELD) {
                None => CredentialLookup::NoKey,
                Some(value) => match entry_text(value) {
                    Some(key) => CredentialLookup::Key(key.to_owned()),
                    None => CredentialLookup::Failed(KEY_NOT_TEXT.to_owned()),
                },
            },
        },
    }
}

/// The credentials held for the lifetime of a provider.
///
/// The secret is absent at first. It changes only through `authenticate` and
/// `reset`.
#[derive(Debug)]
pub struct State {
    api_key: Option<String>,
}

impl View for State {
    type V = Option<Seq<char>>;

    closed spec fn view(&self) -> Option<Seq<char>> {
        match self.api_key {
            Some(key) => Some(key@),
            None => None,
        }
    }
}

impl State {
    /// A store that holds no secret.
    pub fn new() -> (state: State)
        ensures
            state@ is None,
    {
        State { api_key: None }
    }

    /// True exactly when a secret is held.
    pub fn is_authenticated(&self) -> (held: bool)
        ensures
            held == (self@ is Some),
    {
        self.api_key.is_some()
    }

    /// The secret, where one is held.
    pub fn api_key(&self) -> (key: Option<&String>)
        ensures
            match key {
                Some(key) => self@ == Some(key@),
                None => self@ is None,
            },
    {
        self.api_key.as_ref()
    }

    /// Settles one authentication from what the lookup of the secret came to.
    pub fn accept(&mut self, found: CredentialLookup) -> (result: Result<(), AuthenticateError>)
        ensures
            (final(self)@, outcome_of(result)) == auth_step(old(self)@, found@),
    {
        if self.is_authenticated() {
            return Ok(());
        }
        match found {
            CredentialLookup::NoFile => Err(AuthenticateError::CredentialsNotFound),
            CredentialLookup::Failed(reason) => Err(AuthenticateError::Other(reason)),
            CredentialLookup::NoKey => Err(AuthenticateError::CredentialsNotFound),
            CredentialLookup::Key(key) => {
                self.api_key = Some(key);
                Ok(())
            },
        }
    }

    /// Authenticates from what was read of the configuration file.
    ///
    /// A store that already holds a secret succeeds and changes nothing; the
    /// caller need not read the file for it.
    pub fn authenticate(&mut self, file: ConfigFile) -> (result: Result<(), AuthenticateError>)
        ensures
            (final(self)@, outcome_of(result)) == auth_step(old(self)@, lookup_of(file@)),
    {
        if self.is_authenticated() {
            return Ok(());
        }
        let found = read_credentials(file);
        self.accept(found)
    }

    /// Forgets the secret.
    pub fn reset(&mut self)
        ensures
            final(self)@ is None,
    {
        self.api_key = None;
    }
}

impl Default for State {
    fn default() -> (state: State)
        ensures
            state@ is None,
    {
        State::new()
    }
}

/// A file that is a TOML document whose `api_key` is a string holds that
/// string as the secret; a document without `api_key` holds none.
pub proof fn lemma_lookup_in_a_well_formed_file(
    contents: Seq<char>,
    document: toml::Value,
    entries: Map<Seq<char>, toml::Value>,
)
    requires
        toml_document(contents) == Ok::<toml::Value, toml::de::Error>(document),
        toml_shape(document) == TomlShape::Table(entries),
    ensures
        !entries.dom().contains(API_KEY_FIELD@) ==> lookup_in(contents)
            == CredentialLookupView::NoKey,
        entries.dom().contains(API_KEY_FIELD@) ==> (match toml_shape(entries[API_KEY_FIELD@]) {
            TomlShape::Text(key) => lookup_in(contents) == CredentialLookupView::Key(key),
            _ => lookup_in(contents) == CredentialLookupView::Failed(KEY_NOT_TEXT@),
        }),
{
}

/// A configuration file that holds a secret authenticates any store, and a
/// store that has authenticated stays as it is whatever is read later: the
/// second authentication succeeds and changes nothing.
pub proof fn lemma_authenticate_is_idempotent(
    held: Option<Seq<char>>,
    first: ConfigFileView,
    second: ConfigFileView,
)
    requires
        lookup_of(first) is Key,
    ensures
        auth_step(held, lookup_of(first)).1 is Ok,
        auth_step(held, lookup_of(first)).0 is Some,
        held is None ==> auth_step(held, lookup_of(first)).0 == Some(lookup_of(first)->Key_0),
        auth_step(auth_step(held, lookup_of(first)).0, lookup_of(second)) == (
            auth_step(held, lookup_of(first)).0,
            Ok::<(), AuthenticateErrorView>(()),
        ),
{
}

/// Without a configuration file an empty store fails to authenticate, with
/// `CredentialsNotFound`, and stays empty.
pub proof fn lemma_missing_file_is_not_found()
    ensures
        auth_step(None, lookup_of(ConfigFileView::Missing)) == (
            None::<Seq<char>>,
            Err::<(), AuthenticateErrorView>(AuthenticateErrorView::CredentialsNotFound),
        ),
{
}

/// A failed authentication leaves the store as it was, and a store is
/// authenticated afterwards exactly when the authentication succeeded. The
/// secret changes exactly where an empty store finds one: that is when those
/// who watch the credentials are to be told.
pub proof fn lemma_failure_changes_nothing(held: Option<Seq<char>>, found: CredentialLookupView)
    ensures
        auth_step(held, found).1 is Err ==> auth_step(held, found).0 == held && held is None,
        auth_step(held, found).1 is Ok <==> auth_step(held, found).0 is Some,
        auth_step(held, found).0 != held <==> held is None && found is Key,
{
}

} // verus!
