use git2kit::credentials_state::{Advance, Credential, CredentialsState, DEFAULT, SSH_KEY, USERNAME};
use git2kit::settings::SshSettings;

fn key() -> SshSettings {
    SshSettings { private_key: "/home/me/.ssh/id".to_string(), passphrase: Some("secret".to_string()) }
}

#[test]
fn a_backend_that_rejects_everything_is_offered_four_strategies_and_no_more() {
    let ssh = key();
    let mut state = CredentialsState::new("git", Some(&ssh));
    let all = SSH_KEY | USERNAME | DEFAULT;
    let mut offered = Vec::new();
    let mut requests = 0;
    loop {
        requests += 1;
        match state.advance(all) {
            Advance::Credential(c) => offered.push(c),
            Advance::Exhausted => break,
        }
        assert!(requests <= 4);
    }
    assert_eq!(requests, 5);
    assert_eq!(
        offered,
        vec![
            Credential::SshAgent { username: "git".to_string() },
            Credential::SshKeyFile {
                username: "git".to_string(),
                private_key: "/home/me/.ssh/id".to_string(),
                passphrase: Some("secret".to_string()),
            },
            Credential::Username { username: "git".to_string() },
            Credential::Default,
        ]
    );
    assert!(state.is_exhausted());
    assert_eq!(state.tried(), 4);
    for _ in 0..10 {
        assert_eq!(state.advance(all), Advance::Exhausted);
    }
}

#[test]
fn strategies_the_backend_cannot_take_are_skipped() {
    let ssh = key();
    let mut state = CredentialsState::new("git", Some(&ssh));
    assert_eq!(state.advance(USERNAME), Advance::Credential(Credential::Username { username: "git".to_string() }));
    assert_eq!(state.tried(), 3);
    // the key strategies were passed and are not offered later
    assert_eq!(state.advance(SSH_KEY), Advance::Exhausted);
    assert!(state.is_exhausted());
}

#[test]
fn a_key_file_is_offered_only_where_one_is_configured() {
    let mut state = CredentialsState::new("me", None);
    assert_eq!(state.advance(SSH_KEY), Advance::Credential(Credential::SshAgent { username: "me".to_string() }));
    assert_eq!(state.advance(SSH_KEY), Advance::Exhausted);
    let plain = SshSettings { private_key: "id".to_string(), passphrase: None };
    let mut state = CredentialsState::new("me", Some(&plain));
    state.advance(SSH_KEY);
    assert_eq!(
        state.advance(SSH_KEY),
        Advance::Credential(Credential::SshKeyFile {
            username: "me".to_string(),
            private_key: "id".to_string(),
            passphrase: None,
        })
    );
    assert_eq!(state.advance(SSH_KEY), Advance::Exhausted);
}

#[test]
fn nothing_is_offered_to_a_backend_that_allows_nothing() {
    let mut state = CredentialsState::new("git", None);
    assert!(!state.is_exhausted());
    assert_eq!(state.tried(), 0);
    assert_eq!(state.advance(0), Advance::Exhausted);
    assert!(state.is_exhausted());
    // plain-text passwords alone match no strategy
    let mut state = CredentialsState::new("git", None);
    assert_eq!(state.advance(1), Advance::Exhausted);
}

#[test]
fn the_default_mechanism_comes_last() {
    let mut state = CredentialsState::new("git", None);
    assert_eq!(state.advance(DEFAULT), Advance::Credential(Credential::Default));
    assert_eq!(state.advance(DEFAULT | SSH_KEY | USERNAME), Advance::Exhausted);
}

#[test]
fn a_new_user_name_shows_in_later_credentials_and_moves_nothing() {
    let mut state = CredentialsState::new("git", None);
    state.advance(SSH_KEY);
    state.set_username("alice");
    assert_eq!(state.tried(), 1);
    assert_eq!(state.advance(USERNAME), Advance::Credential(Credential::Username { username: "alice".to_string() }));
}
