use frontend_auth::config::{base_address_def, enabled_def, AuthConfig};
use frontend_auth::provider::{ProviderCatalog, ProviderConfig};
use frontend_auth::session::{AuthenticatedSession, PendingLoginState, SessionStateStore};

fn provider(name: &str, enabled: bool) -> ProviderConfig {
    ProviderConfig {
        name: name.to_string(),
        client_id: format!("{}-client", name),
        client_secret: "hush".to_string(),
        auth_url: format!("https://{}.example/authorize", name),
        token_url: format!("https://{}.example/token", name),
        redirect_uri: "https://registry.example/callback".to_string(),
        userinfo_url: format!("https://{}.example/user", name),
        scopes: vec![],
        enabled,
    }
}

fn record(state: &str) -> PendingLoginState {
    PendingLoginState { state: state.to_string(), attach: false, return_path: None }
}

#[test]
fn new_session_is_empty() {
    let session = SessionStateStore::new();
    assert_eq!(session.pending, None);
    assert_eq!(session.authenticated, None);
    assert_eq!(session.get_authenticated(), None);
}

#[test]
fn take_reads_once() {
    let mut session = SessionStateStore::new();
    session.put(record("a"));
    assert_eq!(session.take(), Some(record("a")));
    assert_eq!(session.take(), None);
}

#[test]
fn put_overwrites() {
    let mut session = SessionStateStore::new();
    session.put(record("a"));
    session.put(record("b"));
    assert_eq!(session.take(), Some(record("b")));
    assert_eq!(session.take(), None);
}

#[test]
fn authenticated_marker_is_set_read_and_cleared() {
    let mut session = SessionStateStore::new();
    session.put(record("a"));
    session.set_authenticated(42, 1_700_000_000);
    assert_eq!(session.get_authenticated(), Some(42));
    assert_eq!(
        session.authenticated,
        Some(AuthenticatedSession { account_id: 42, issued_at: 1_700_000_000 })
    );
    session.clear_authenticated();
    assert_eq!(session.get_authenticated(), None);
    assert_eq!(session.pending, Some(record("a")));
}

#[test]
fn catalog_lookup_finds_enabled_providers_only() {
    let catalog = ProviderCatalog::build(vec![
        provider("gitlab", true),
        provider("github", false),
        provider("gitea", true),
    ])
    .unwrap();
    assert_eq!(catalog.len(), 3);
    assert_eq!(catalog.lookup(&"gitlab".to_string()), Some(&provider("gitlab", true)));
    assert_eq!(catalog.lookup(&"gitea".to_string()), Some(&provider("gitea", true)));
    assert_eq!(catalog.lookup(&"github".to_string()), None);
    assert_eq!(catalog.lookup(&"bitbucket".to_string()), None);
    assert_eq!(catalog.lookup(&"GitLab".to_string()), None);
}

#[test]
fn catalog_refuses_a_name_twice() {
    assert_eq!(
        ProviderCatalog::build(vec![
            provider("gitlab", true),
            provider("github", true),
            provider("gitlab", false),
        ]),
        None
    );
    assert!(ProviderCatalog::build(vec![]).is_some());
}

#[test]
fn auth_config_builds_the_catalog() {
    let config = AuthConfig { providers: vec![provider("gitlab", true)] };
    let catalog = config.into_catalog().unwrap();
    assert_eq!(catalog.lookup(&"gitlab".to_string()).unwrap().client_id, "gitlab-client");
    let twice = AuthConfig { providers: vec![provider("gitlab", true), provider("gitlab", true)] };
    assert_eq!(twice.into_catalog(), None);
}

#[test]
fn configuration_defaults() {
    assert!(enabled_def());
    assert_eq!(base_address_def(), "/");
}

#[test]
fn config_clone_keeps_the_paths() {
    let assets = frontend_auth::config::AssetsConfig {
        path: std::path::PathBuf::from("assets/static"),
    };
    let copy = assets.clone();
    assert_eq!(copy.path, std::path::PathBuf::from("assets/static"));
    assert_eq!(copy, assets);
}

#[test]
fn gate_admits_authenticated_sessions_only() {
    let mut session = SessionStateStore::new();
    assert_eq!(
        frontend_auth::gate::AuthenticationGate::require_session(&session),
        Err(frontend_auth::flow::FlowError::AuthenticationRequired)
    );
    session.set_authenticated(42, 7);
    assert_eq!(frontend_auth::gate::AuthenticationGate::require_session(&session), Ok(42));
}
