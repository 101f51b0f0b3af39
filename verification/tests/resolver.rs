use git_credential_keepassxc::config::{Database, Group};
use git_credential_keepassxc::error::HelperError;
use git_credential_keepassxc::git::{read_git_request, GitCredentialMessage};
use git_credential_keepassxc::logins::{
    filter_by_login, filter_kph_logins, get_logins, get_logins_for, get_logins_request,
    is_opted_out, LoginEntry, StringField,
};

fn entry(login: &str, password: &str, uuid: &str) -> LoginEntry {
    LoginEntry {
        login: login.to_string(),
        password: password.to_string(),
        uuid: uuid.to_string(),
        string_fields: None,
        expired: None,
    }
}

fn field(key: &str, value: &str) -> StringField {
    StringField { key: key.to_string(), value: value.to_string() }
}

fn opted_out(login: &str, password: &str, uuid: &str) -> LoginEntry {
    LoginEntry {
        string_fields: Some(vec![vec![field("KPH: git", "false")]]),
        ..entry(login, password, uuid)
    }
}

fn expired(login: &str, password: &str, uuid: &str) -> LoginEntry {
    LoginEntry { expired: Some(true), ..entry(login, password, uuid) }
}

fn request(text: &str) -> GitCredentialMessage {
    GitCredentialMessage::from_str(text).unwrap()
}

#[test]
fn single_entry_answers_the_request() {
    let (request, url) = read_git_request("url=https://example.com\n").unwrap();
    assert_eq!(url, "https://example.com");
    let entries = vec![entry("alice", "p1", "u1")];
    let resolution = get_logins(request, &entries).unwrap();
    assert_eq!(resolution.response.username, Some("alice".to_string()));
    assert_eq!(resolution.response.password, Some("p1".to_string()));
    assert_eq!(resolution.excluded, 0);
    assert!(!resolution.ambiguous);
    assert_eq!(
        resolution.response.to_string(),
        "url=https://example.com\nusername=alice\npassword=p1\n"
    );
}

#[test]
fn request_fields_are_echoed() {
    let entries = vec![entry("alice", "p1", "u1")];
    let resolution =
        get_logins(request("protocol=https\nhost=example.com\npath=x\n"), &entries).unwrap();
    assert_eq!(
        resolution.response.to_string(),
        "protocol=https\nhost=example.com\npath=x\nusername=alice\npassword=p1\n"
    );
}

#[test]
fn opted_out_entry_is_ignored_and_counted() {
    let entries = vec![opted_out("mallory", "x", "u1"), entry("alice", "p1", "u2")];
    let resolution = get_logins(request("url=https://example.com\n"), &entries).unwrap();
    assert_eq!(resolution.response.username, Some("alice".to_string()));
    assert_eq!(resolution.response.password, Some("p1".to_string()));
    assert_eq!(resolution.excluded, 1);
    assert!(!resolution.ambiguous);
}

#[test]
fn single_usable_entry_wins_whatever_the_hint() {
    let entries = vec![expired("bob", "old", "u0"), entry("alice", "p1", "u1")];
    let resolution =
        get_logins(request("url=https://example.com\nusername=bob\n"), &entries).unwrap();
    assert_eq!(resolution.response.username, Some("alice".to_string()));
    assert_eq!(resolution.response.password, Some("p1".to_string()));
}

#[test]
fn hint_picks_the_entry_of_that_user() {
    let entries =
        vec![entry("alice", "p1", "u1"), entry("bob", "p2", "u2"), entry("carol", "p3", "u3")];
    let resolution =
        get_logins(request("url=https://example.com\nusername=bob\n"), &entries).unwrap();
    assert_eq!(resolution.response.username, Some("bob".to_string()));
    assert_eq!(resolution.response.password, Some("p2".to_string()));
    assert!(!resolution.ambiguous);
}

#[test]
fn hint_that_matches_nothing_falls_back_to_first() {
    let entries = vec![entry("alice", "p1", "u1"), entry("bob", "p2", "u2")];
    let resolution =
        get_logins(request("url=https://example.com\nusername=zed\n"), &entries).unwrap();
    assert_eq!(resolution.response.username, Some("alice".to_string()));
    assert_eq!(resolution.response.password, Some("p1".to_string()));
    assert!(resolution.ambiguous);
}

#[test]
fn hint_that_matches_several_takes_the_first_of_them() {
    let entries =
        vec![entry("alice", "p1", "u1"), entry("bob", "p2", "u2"), entry("bob", "p3", "u3")];
    let resolution =
        get_logins(request("url=https://example.com\nusername=bob\n"), &entries).unwrap();
    assert_eq!(resolution.response.password, Some("p2".to_string()));
    assert!(resolution.ambiguous);
}

#[test]
fn without_hint_the_first_entry_is_taken() {
    let entries = vec![entry("alice", "p1", "u1"), entry("bob", "p2", "u2")];
    let resolution = get_logins(request("url=https://example.com\n"), &entries).unwrap();
    assert_eq!(resolution.response.username, Some("alice".to_string()));
    assert!(resolution.ambiguous);
}

#[test]
fn no_entry_is_no_matching_login() {
    let entries: Vec<LoginEntry> = Vec::new();
    assert_eq!(
        get_logins(request("url=https://example.com\n"), &entries),
        Err(HelperError::NoMatchingLogin)
    );
}

#[test]
fn only_unusable_entries_is_no_matching_login() {
    let entries = vec![expired("alice", "p1", "u1"), opted_out("bob", "p2", "u2")];
    assert_eq!(
        get_logins(request("url=https://example.com\nusername=alice\n"), &entries),
        Err(HelperError::NoMatchingLogin)
    );
}

#[test]
fn expired_false_is_not_expired() {
    let entries = vec![LoginEntry { expired: Some(false), ..entry("alice", "p1", "u1") }];
    let live = get_logins_for(&entries);
    assert_eq!(live.len(), 1);
}

#[test]
fn expired_entries_are_dropped_in_order() {
    let entries = vec![
        entry("a", "1", "u1"),
        expired("b", "2", "u2"),
        entry("c", "3", "u3"),
        expired("d", "4", "u4"),
    ];
    let live = get_logins_for(&entries);
    let logins: Vec<&str> = live.iter().map(|e| e.login.as_str()).collect();
    assert_eq!(logins, vec!["a", "c"]);
}

#[test]
fn opt_out_filter_counts_and_keeps_order() {
    let entries = vec![
        opted_out("a", "1", "u1"),
        entry("b", "2", "u2"),
        opted_out("c", "3", "u3"),
        entry("d", "4", "u4"),
    ];
    let all: Vec<&LoginEntry> = entries.iter().collect();
    let (excluded, offered) = filter_kph_logins(&all);
    assert_eq!(excluded, 2);
    let logins: Vec<&str> = offered.iter().map(|e| e.login.as_str()).collect();
    assert_eq!(logins, vec!["b", "d"]);
}

#[test]
fn opt_out_marker_must_be_exact() {
    let mut other_value = entry("a", "1", "u1");
    other_value.string_fields = Some(vec![vec![field("KPH: git", "true")]]);
    assert!(!is_opted_out(&other_value));
    let mut other_key = entry("a", "1", "u1");
    other_key.string_fields = Some(vec![vec![field("KPH: svn", "false")]]);
    assert!(!is_opted_out(&other_key));
    let mut no_fields = entry("a", "1", "u1");
    no_fields.string_fields = Some(vec![]);
    assert!(!is_opted_out(&no_fields));
    let mut later_mapping = entry("a", "1", "u1");
    later_mapping.string_fields =
        Some(vec![vec![field("x", "y")], vec![field("z", "w"), field("KPH: git", "false")]]);
    assert!(is_opted_out(&later_mapping));
}

#[test]
fn login_filter_keeps_matching_entries() {
    let entries = vec![entry("a", "1", "u1"), entry("b", "2", "u2"), entry("a", "3", "u3")];
    let all: Vec<&LoginEntry> = entries.iter().collect();
    let named = filter_by_login(&all, &"a".to_string());
    let uuids: Vec<&str> = named.iter().map(|e| e.uuid.as_str()).collect();
    assert_eq!(uuids, vec!["u1", "u3"]);
}

#[test]
fn query_names_every_database() {
    let first = Database::new(
        "db1".to_string(),
        &[1u8; 32],
        Group::new("Git".to_string(), "g1".to_string()),
    );
    let second = Database::new(
        "db2".to_string(),
        &[2u8; 32],
        Group::new("Git".to_string(), "g2".to_string()),
    );
    let expected = vec![
        (first.id.clone(), first.pkey.clone()),
        (second.id.clone(), second.pkey.clone()),
    ];
    let query = get_logins_request(&"https://example.com".to_string(), &vec![first, second]);
    assert_eq!(query.url, "https://example.com");
    assert_eq!(query.keys, expected);
}

#[test]
fn opt_out_is_what_the_mapping_holds_under_the_marker() {
    let mut marked = entry("a", "1", "u1");
    marked.string_fields = Some(vec![vec![
        field("Notes", "false"),
        field("KPH: git", "false"),
        field("KPH: other", "true"),
    ]]);
    assert!(is_opted_out(&marked));
    let mut unmarked = entry("a", "1", "u1");
    unmarked.string_fields = Some(vec![vec![
        field("Notes", "false"),
        field("KPH: git", "true"),
        field("KPH: other", "false"),
    ]]);
    assert!(!is_opted_out(&unmarked));
}
