use codex_cli::auth::{
    read_credentials, AuthenticateError, ConfigFile, CredentialLookup, State, API_KEY_FIELD,
    CONFIG_DIR, CONFIG_FILE, KEY_NOT_TEXT,
};
use codex_cli::provider::CodexCliLanguageModelProvider;

fn contents(text: &str) -> ConfigFile {
    ConfigFile::Contents(text.to_string())
}

#[test]
fn authentication_error_when_no_credentials() {
    let mut provider = CodexCliLanguageModelProvider::new();
    match provider.authenticate(ConfigFile::Missing) {
        Err(AuthenticateError::CredentialsNotFound) => {}
        other => panic!("expected CredentialsNotFound, got {:?}", other),
    }
    assert!(!provider.is_authenticated());
}

#[test]
fn a_new_state_holds_no_secret() {
    let state = State::new();
    assert!(!state.is_authenticated());
    assert_eq!(state.api_key(), None);
    assert!(!State::default().is_authenticated());
}

#[test]
fn a_file_with_a_key_authenticates() {
    let mut state = State::new();
    assert_eq!(state.authenticate(contents("api_key = \"test\"\n")), Ok(()));
    assert!(state.is_authenticated());
    assert_eq!(state.api_key(), Some(&"test".to_string()));
}

#[test]
fn other_keys_of_the_file_do_not_matter() {
    let mut state = State::new();
    let file = "model = \"o3\"\napi_key = 'secret value'\n\n[profile]\napi_key = \"inner\"\n";
    assert_eq!(state.authenticate(contents(file)), Ok(()));
    assert_eq!(state.api_key(), Some(&"secret value".to_string()));
}

#[test]
fn authenticating_twice_changes_nothing() {
    let mut state = State::new();
    assert_eq!(state.authenticate(contents("api_key = \"first\"")), Ok(()));
    assert_eq!(state.authenticate(contents("api_key = \"second\"")), Ok(()));
    assert_eq!(state.api_key(), Some(&"first".to_string()));
    assert_eq!(state.authenticate(ConfigFile::Missing), Ok(()));
    assert_eq!(state.authenticate(contents("not toml at all [")), Ok(()));
    assert_eq!(state.authenticate(ConfigFile::Unreadable("denied".to_string())), Ok(()));
    assert_eq!(state.api_key(), Some(&"first".to_string()));
}

#[test]
fn a_file_without_the_key_holds_no_credentials() {
    let mut state = State::new();
    assert_eq!(
        state.authenticate(contents("model = \"o3\"\n")),
        Err(AuthenticateError::CredentialsNotFound)
    );
    assert_eq!(state.authenticate(contents("")), Err(AuthenticateError::CredentialsNotFound));
    assert_eq!(
        state.authenticate(contents("[profile]\napi_key = \"inner\"\n")),
        Err(AuthenticateError::CredentialsNotFound)
    );
    assert!(!state.is_authenticated());
}

#[test]
fn a_malformed_file_is_another_failure() {
    let mut state = State::new();
    let text = "api_key = \"unterminated\n";
    match state.authenticate(contents(text)) {
        Err(AuthenticateError::Other(reason)) => {
            assert!(!reason.is_empty());
            assert_ne!(reason, text);
        }
        other => panic!("expected a parse failure, got {:?}", other),
    }
    assert!(!state.is_authenticated());
}

#[test]
fn a_key_that_is_not_text_is_another_failure() {
    let mut state = State::new();
    assert_eq!(
        state.authenticate(contents("api_key = 5\n")),
        Err(AuthenticateError::Other(KEY_NOT_TEXT.to_string()))
    );
    assert_eq!(
        state.authenticate(contents("[api_key]\nvalue = \"x\"\n")),
        Err(AuthenticateError::Other(KEY_NOT_TEXT.to_string()))
    );
    assert!(!state.is_authenticated());
}

#[test]
fn an_unreadable_file_is_another_failure() {
    let mut state = State::new();
    assert_eq!(
        state.authenticate(ConfigFile::Unreadable("permission denied".to_string())),
        Err(AuthenticateError::Other("permission denied".to_string()))
    );
    assert!(!state.is_authenticated());
}

#[test]
fn a_failure_can_be_followed_by_a_success() {
    let mut state = State::new();
    assert_eq!(state.authenticate(ConfigFile::Missing), Err(AuthenticateError::CredentialsNotFound));
    assert_eq!(state.authenticate(contents("api_key = \"k\"")), Ok(()));
    assert!(state.is_authenticated());
}

#[test]
fn reset_forgets_the_secret() {
    let mut state = State::new();
    state.reset();
    assert!(!state.is_authenticated());
    assert_eq!(state.authenticate(contents("api_key = \"k\"")), Ok(()));
    state.reset();
    assert!(!state.is_authenticated());
    assert_eq!(state.api_key(), None);
    assert_eq!(state.authenticate(contents("api_key = \"again\"")), Ok(()));
    assert_eq!(state.api_key(), Some(&"again".to_string()));
}

#[test]
fn provider_resets_its_credentials() {
    let mut provider = CodexCliLanguageModelProvider::new();
    assert_eq!(provider.reset_credentials(), Ok(()));
    assert_eq!(provider.authenticate(contents("api_key = \"test\"\n")), Ok(()));
    assert!(provider.is_authenticated());
    assert_eq!(provider.reset_credentials(), Ok(()));
    assert!(!provider.is_authenticated());
}

#[test]
fn the_lookup_tells_what_was_found() {
    assert_eq!(read_credentials(ConfigFile::Missing), CredentialLookup::NoFile);
    assert_eq!(
        read_credentials(ConfigFile::Unreadable("busy".to_string())),
        CredentialLookup::Failed("busy".to_string())
    );
    assert_eq!(read_credentials(contents("a = 1")), CredentialLookup::NoKey);
    assert_eq!(
        read_credentials(contents("api_key = \"k\"")),
        CredentialLookup::Key("k".to_string())
    );
    assert_eq!(
        read_credentials(contents("api_key = [\"k\"]")),
        CredentialLookup::Failed(KEY_NOT_TEXT.to_string())
    );
    assert!(matches!(read_credentials(contents("= 1")), CredentialLookup::Failed(_)));
}

#[test]
fn a_lookup_settles_the_authentication() {
    let mut state = State::new();
    assert_eq!(state.accept(CredentialLookup::NoFile), Err(AuthenticateError::CredentialsNotFound));
    assert_eq!(state.accept(CredentialLookup::NoKey), Err(AuthenticateError::CredentialsNotFound));
    assert_eq!(
        state.accept(CredentialLookup::Failed("why".to_string())),
        Err(AuthenticateError::Other("why".to_string()))
    );
    assert!(!state.is_authenticated());
    assert_eq!(state.accept(CredentialLookup::Key("k".to_string())), Ok(()));
    assert_eq!(state.accept(CredentialLookup::NoFile), Ok(()));
    assert_eq!(state.accept(CredentialLookup::Key("other".to_string())), Ok(()));
    assert_eq!(state.api_key(), Some(&"k".to_string()));
}

#[test]
fn the_configuration_file_has_a_fixed_place() {
    assert_eq!(CONFIG_DIR, ".codex");
    assert_eq!(CONFIG_FILE, "config.toml");
    assert_eq!(API_KEY_FIELD, "api_key");
}
