use frontend_auth::gate::AuthenticationGate;
use frontend_auth::linker::{Account, AccountLinker, ExternalIdentity, LinkError};
use frontend_auth::session::SessionStateStore;

fn identity(provider: &str, id: &str, name: &str) -> ExternalIdentity {
    ExternalIdentity {
        provider: provider.to_string(),
        external_id: id.to_string(),
        display_name: name.to_string(),
        email: None,
    }
}

#[test]
fn new_linker_is_empty() {
    let linker = AccountLinker::new();
    assert_eq!(linker.link_count(), 0);
    assert_eq!(linker.account_count(), 0);
    assert_eq!(linker.linked_account_of(&"gitlab".to_string(), &"1".to_string()), None);
    assert_eq!(linker.account(1), None);
}

#[test]
fn attach_twice_writes_one_link() {
    let mut linker = AccountLinker::new();
    assert_eq!(linker.attach(42, identity("gitlab", "1001", "octocat")), Ok(()));
    let mut once = AccountLinker::new();
    once.attach(42, identity("gitlab", "1001", "octocat")).unwrap();
    assert_eq!(linker.attach(42, identity("gitlab", "1001", "octocat")), Ok(()));
    assert_eq!(linker.link_count(), 1);
    assert_eq!(linker, once);
}

#[test]
fn attach_refuses_an_identity_of_another_account() {
    let mut linker = AccountLinker::new();
    linker.attach(42, identity("gitlab", "1001", "octocat")).unwrap();
    let mut before = AccountLinker::new();
    before.attach(42, identity("gitlab", "1001", "octocat")).unwrap();
    assert_eq!(
        linker.attach(43, identity("gitlab", "1001", "octocat")),
        Err(LinkError::AlreadyLinked)
    );
    assert_eq!(linker, before);
    assert_eq!(linker.linked_account_of(&"gitlab".to_string(), &"1001".to_string()), Some(42));
}

#[test]
fn attach_tells_providers_and_ids_apart() {
    let mut linker = AccountLinker::new();
    linker.attach(42, identity("gitlab", "1001", "octocat")).unwrap();
    assert_eq!(linker.attach(43, identity("github", "1001", "octocat")), Ok(()));
    assert_eq!(linker.attach(44, identity("gitlab", "1002", "octocat")), Ok(()));
    assert_eq!(linker.link_count(), 3);
    assert_eq!(linker.linked_account_of(&"gitlab".to_string(), &"1001".to_string()), Some(42));
    assert_eq!(linker.linked_account_of(&"github".to_string(), &"1001".to_string()), Some(43));
    assert_eq!(linker.linked_account_of(&"gitlab".to_string(), &"1002".to_string()), Some(44));
}

#[test]
fn login_or_create_twice_returns_the_same_account() {
    let mut linker = AccountLinker::new();
    let first = linker.login_or_create(identity("gitlab", "1001", "octocat"));
    assert_eq!(first, Ok(1));
    let mut after_first = AccountLinker::new();
    after_first.login_or_create(identity("gitlab", "1001", "octocat")).unwrap();
    let second = linker.login_or_create(identity("gitlab", "1001", "octocat"));
    assert_eq!(second, Ok(1));
    assert_eq!(linker, after_first);
    assert_eq!(linker.account_count(), 1);
    assert_eq!(linker.link_count(), 1);
}

#[test]
fn login_or_create_numbers_the_accounts() {
    let mut linker = AccountLinker::new();
    assert_eq!(linker.login_or_create(identity("gitlab", "1", "ann")), Ok(1));
    assert_eq!(linker.login_or_create(identity("gitlab", "2", "bob")), Ok(2));
    assert_eq!(linker.login_or_create(identity("github", "1", "cy")), Ok(3));
    assert_eq!(linker.login_or_create(identity("gitlab", "2", "renamed")), Ok(2));
    assert_eq!(linker.account_count(), 3);
}

#[test]
fn login_or_create_makes_the_account_from_the_identity() {
    let mut linker = AccountLinker::new();
    let mut who = identity("gitlab", "1001", "octocat");
    who.email = Some("octocat@example.org".to_string());
    assert_eq!(linker.login_or_create(who), Ok(1));
    assert_eq!(
        linker.account(1),
        Some(&Account {
            id: 1,
            name: "octocat".to_string(),
            email: Some("octocat@example.org".to_string()),
        })
    );
    assert!(linker.has_account_named(&"octocat".to_string()));
    assert!(!linker.has_account_named(&"octoca".to_string()));
}

#[test]
fn login_or_create_fails_on_a_taken_name() {
    let mut linker = AccountLinker::new();
    linker.login_or_create(identity("gitlab", "1001", "octocat")).unwrap();
    let mut before = AccountLinker::new();
    before.login_or_create(identity("gitlab", "1001", "octocat")).unwrap();
    assert_eq!(
        linker.login_or_create(identity("github", "77", "octocat")),
        Err(LinkError::AccountCreationFailed)
    );
    assert_eq!(linker, before);
}

#[test]
fn login_uses_a_link_that_attach_made() {
    let mut linker = AccountLinker::new();
    linker.attach(42, identity("gitlab", "1001", "octocat")).unwrap();
    assert_eq!(linker.login_or_create(identity("gitlab", "1001", "octocat")), Ok(42));
    assert_eq!(linker.account_count(), 0);
}

#[test]
fn current_author_follows_the_session() {
    let mut linker = AccountLinker::new();
    linker.login_or_create(identity("gitlab", "1", "ann")).unwrap();
    linker.login_or_create(identity("gitlab", "2", "bob")).unwrap();
    let mut session = SessionStateStore::new();
    assert_eq!(AuthenticationGate::current_author(&session, &linker), None);
    session.set_authenticated(2, 5);
    assert_eq!(AuthenticationGate::current_author(&session, &linker).unwrap().name, "bob");
    session.set_authenticated(9, 5);
    assert_eq!(AuthenticationGate::current_author(&session, &linker), None);
    session.clear_authenticated();
    assert_eq!(AuthenticationGate::current_author(&session, &linker), None);
}

#[test]
fn link_errors_have_their_messages() {
    assert_eq!(
        LinkError::AlreadyLinked.message(),
        "this identity is linked to another account already"
    );
    assert_eq!(
        LinkError::AccountCreationFailed.message(),
        "no account could be created: the name is taken, pick another at the provider"
    );
}
