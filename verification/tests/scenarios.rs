use git_credential_keepassxc::auth::{verify_caller, ParentProcess};
use git_credential_keepassxc::config::{Config, Database, Group};
use git_credential_keepassxc::git::read_git_request;
use git_credential_keepassxc::logins::{get_logins, get_logins_request, LoginEntry, StringField};
use git_credential_keepassxc::session::{
    exchange_keys, open_message, seal_with_fresh_nonce, session_offer, Session,
};
use git_credential_keepassxc::store::{store_login, StoreAction};
use git_credential_keepassxc::unlock::{
    associated_databases, classify_poll, classify_probe, UnlockOptions, WaitAction, WaitEvent,
    WaitState,
};
use git_credential_keepassxc::error::HelperError;

fn one_database_config() -> Config {
    let mut config = Config::new();
    let database = Database::new(
        "laptop".to_string(),
        &[11u8; 32],
        Group::new("Git".to_string(), "group-uuid".to_string()),
    );
    config.add_database(database, false).unwrap();
    config
}

fn entry(login: &str, password: &str, uuid: &str) -> LoginEntry {
    LoginEntry {
        login: login.to_string(),
        password: password.to_string(),
        uuid: uuid.to_string(),
        string_fields: None,
        expired: None,
    }
}

/// Waits for every database of the configuration against a password manager whose answers
/// are scripted, and returns the usable databases with the number of polls made.
fn wait_for_databases(
    config: &Config,
    options: &Option<UnlockOptions>,
    locked_for: usize,
) -> (Result<Vec<Database>, HelperError>, usize) {
    let mut polls = 0;
    let mut states = Vec::new();
    for _ in config.get_databases() {
        let mut state = WaitState::start(options);
        loop {
            match state.action(options) {
                WaitAction::TestAssociate { .. } => {
                    let answer = if polls < locked_for {
                        Err(HelperError::DatabaseLocked)
                    } else {
                        Ok(Some(true))
                    };
                    state = state.next(WaitEvent::Probed(classify_probe(answer)));
                }
                WaitAction::SleepThenPoll { .. } => {
                    polls += 1;
                    state = state.next(WaitEvent::Polled(classify_poll(polls >= locked_for)));
                }
                WaitAction::Accept | WaitAction::Reject => break,
            }
        }
        states.push(state);
    }
    (associated_databases(config.get_databases(), &states), polls)
}

#[test]
fn get_with_one_database_and_one_entry() {
    let config = one_database_config();
    let git = ParentProcess {
        pid: 1,
        path: "/usr/bin/git".to_string(),
        uid: Some(1000),
        gid: Some(1000),
    };
    assert_eq!(verify_caller(&config, false, Some(&git)), Ok(None));

    let (request, url) = read_git_request("url=https://example.com\n").unwrap();
    let (usable, polls) = wait_for_databases(&config, &None, 0);
    let usable = usable.ok().unwrap();
    assert_eq!(polls, 0);
    let query = get_logins_request(&url, &usable);
    assert_eq!(query.url, "https://example.com");
    assert_eq!(query.keys.len(), 1);
    assert_eq!(query.keys[0].0, "laptop");

    let entries = vec![entry("alice", "p1", "uuid-1")];
    let resolution = get_logins(request, &entries).unwrap();
    let answer = resolution.response.to_string();
    assert_eq!(answer, "url=https://example.com\nusername=alice\npassword=p1\n");
    assert!(answer.contains("username=alice\n"));
    assert!(answer.contains("password=p1\n"));
}

#[test]
fn get_ignores_the_opted_out_entry() {
    let (request, _) = read_git_request("protocol=https\nhost=example.com\n").unwrap();
    let mut hidden = entry("root", "secret", "uuid-1");
    hidden.string_fields =
        Some(vec![vec![StringField { key: "KPH: git".to_string(), value: "false".to_string() }]]);
    let entries = vec![hidden, entry("alice", "p1", "uuid-2")];
    let resolution = get_logins(request, &entries).unwrap();
    assert_eq!(resolution.excluded, 1);
    assert_eq!(
        resolution.response.to_string(),
        "protocol=https\nhost=example.com\nusername=alice\npassword=p1\n"
    );
}

#[test]
fn locked_database_is_waited_for() {
    let config = one_database_config();
    let options = Some(UnlockOptions::from_str("100,3").unwrap());
    let (usable, polls) = wait_for_databases(&config, &options, 2);
    assert_eq!(usable.ok().unwrap().len(), 1);
    assert_eq!(polls, 2);
}

#[test]
fn database_that_stays_locked_is_given_up() {
    let config = one_database_config();
    let options = Some(UnlockOptions::from_str("100,3").unwrap());
    let (usable, polls) = wait_for_databases(&config, &options, usize::MAX);
    assert!(matches!(usable, Err(HelperError::NoValidDatabase)));
    assert_eq!(polls, 3);
}

#[test]
fn store_then_store_again() {
    let config = one_database_config();
    let (request, url) =
        read_git_request("url=https://example.com\nusername=alice\npassword=p2\n").unwrap();
    let usable = config.get_databases().clone();
    let mut entries = vec![entry("alice", "p1", "uuid-1")];
    let first = store_login(&request, &url, &entries, config.count_databases(), &usable).unwrap();
    match first {
        StoreAction::Send(sent) => {
            assert_eq!(sent.uuid, Some("uuid-1".to_string()));
            assert_eq!(sent.id, "laptop");
            assert_eq!(sent.group, Some("Git".to_string()));
            assert_eq!(sent.group_uuid, Some("group-uuid".to_string()));
            entries[0].password = sent.password;
        }
        StoreAction::AlreadyStored => panic!("the password has changed"),
    }
    let second = store_login(&request, &url, &entries, config.count_databases(), &usable).unwrap();
    assert_eq!(second, StoreAction::AlreadyStored);
    assert_eq!(entries.len(), 1);
}

#[test]
fn conversation_over_a_session() {
    let helper_secret = [21u8; 32];
    let manager_secret = [42u8; 32];
    let helper_public = session_offer(helper_secret, [0u8; 24]).public_key;
    let manager_public = session_offer(manager_secret, [0u8; 24]).public_key;
    let offer = session_offer(helper_secret, [7u8; 24]);
    let host_key = base64_text(&manager_public);
    let session = exchange_keys(offer, Some(&host_key)).ok().unwrap();
    let manager = Session {
        client_id: session.client_id.clone(),
        secret_key: manager_secret,
        host_public_key: helper_public,
    };

    let question = b"{\"action\":\"get-databasehash\"}".to_vec();
    let (_, envelope) = seal_with_fresh_nonce(&session, &question).unwrap();
    assert_eq!(envelope.client_id, session.client_id);
    let read = open_message(&manager, &envelope.nonce, &envelope.message).unwrap();
    assert_eq!(read, question);

    let answer = b"{\"hash\":\"abc\",\"success\":\"true\"}".to_vec();
    let (_, envelope) = seal_with_fresh_nonce(&manager, &answer).unwrap();
    let read = open_message(&session, &envelope.nonce, &envelope.message).unwrap();
    assert_eq!(read, answer);
}

fn base64_text(bytes: &[u8]) -> String {
    const ALPHABET: &[u8] = b"ABCDEFGHIJKLMNOPQRSTUVWXYZabcdefghijklmnopqrstuvwxyz0123456789+/";
    let mut text = String::new();
    for chunk in bytes.chunks(3) {
        let b = [chunk[0], *chunk.get(1).unwrap_or(&0), *chunk.get(2).unwrap_or(&0)];
        text.push(ALPHABET[(b[0] >> 2) as usize] as char);
        text.push(ALPHABET[(((b[0] & 3) << 4) | (b[1] >> 4)) as usize] as char);
        if chunk.len() > 1 {
            text.push(ALPHABET[(((b[1] & 15) << 2) | (b[2] >> 6)) as usize] as char);
        } else {
            text.push('=');
        }
        if chunk.len() > 2 {
            text.push(ALPHABET[(b[2] & 63) as usize] as char);
        } else {
            text.push('=');
        }
    }
    text
}
