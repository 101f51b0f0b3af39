use git_credential_keepassxc::config::{Caller, Config, Database, Group};
use git_credential_keepassxc::error::HelperError;

fn database(id: &str, seed: u8) -> Database {
    Database::new(id.to_string(), &[seed; 32], Group::new("Git".to_string(), "g".to_string()))
}

fn caller(path: &str) -> Caller {
    Caller { path: path.to_string(), uid: None, gid: None }
}

fn ids(config: &Config) -> Vec<String> {
    config.get_databases().iter().map(|d| d.id.clone()).collect()
}

#[test]
fn new_configuration_is_empty() {
    let config = Config::new();
    assert_eq!(config.count_databases(), 0);
    assert_eq!(config.count_encrypted_databases(), 0);
    assert_eq!(config.count_callers(), 0);
    assert_eq!(config.count_encrypted_callers(), 0);
    assert_eq!(config.count_encryptions(), 0);
    assert!(!config.databases_encrypted());
    assert!(!config.callers_encrypted());
}

#[test]
fn databases_are_kept_in_order() {
    let mut config = Config::new();
    config.add_database(database("a", 1), false).unwrap();
    config.add_database(database("b", 2), false).unwrap();
    config.add_database(database("c", 3), false).unwrap();
    assert_eq!(ids(&config), vec!["a", "b", "c"]);
    assert_eq!(config.count_databases(), 3);
    assert_eq!(config.count_encrypted_databases(), 0);
}

#[test]
fn database_with_known_id_is_replaced_in_place() {
    let mut config = Config::new();
    config.add_database(database("a", 1), false).unwrap();
    config.add_database(database("b", 2), false).unwrap();
    config.add_database(database("c", 3), false).unwrap();
    config.add_database(database("b", 9), false).unwrap();
    assert_eq!(ids(&config), vec!["a", "b", "c"]);
    assert!(config.get_databases()[1] == database("b", 9));
    assert!(config.get_databases()[0] == database("a", 1));
}

#[test]
fn encrypted_database_needs_a_profile() {
    let mut config = Config::new();
    assert_eq!(config.add_database(database("a", 1), true), Err(HelperError::NoEncryptionProfile));
    assert_eq!(config.count_databases(), 0);
    config.add_encryption("token-1", false).unwrap();
    config.add_database(database("a", 1), true).unwrap();
    assert_eq!(config.count_databases(), 1);
    assert_eq!(config.count_encrypted_databases(), 1);
    assert!(config.databases_encrypted());
}

#[test]
fn encrypted_collection_stays_encrypted() {
    let mut config = Config::new();
    config.add_encryption("token-1", false).unwrap();
    config.add_database(database("a", 1), true).unwrap();
    config.add_database(database("b", 2), false).unwrap();
    assert_eq!(config.count_encrypted_databases(), 2);
    config.add_caller(caller("/usr/bin/git"), false).unwrap();
    assert_eq!(config.count_encrypted_callers(), 0);
    config.add_caller(caller("/usr/bin/ssh"), true).unwrap();
    assert_eq!(config.count_encrypted_callers(), 2);
}

#[test]
fn callers_are_added_and_cleared() {
    let mut config = Config::new();
    assert_eq!(
        config.add_caller(caller("/usr/bin/git"), true),
        Err(HelperError::NoEncryptionProfile)
    );
    config.add_caller(caller("/usr/bin/git"), false).unwrap();
    config.add_caller(caller("/usr/bin/git"), false).unwrap();
    assert_eq!(config.count_callers(), 2);
    assert_eq!(config.get_callers()[0], caller("/usr/bin/git"));
    config.add_encryption("token-1", false).unwrap();
    assert_eq!(config.encrypt_callers(), Ok(2));
    config.clear_callers();
    assert_eq!(config.count_callers(), 0);
    assert!(!config.callers_encrypted());
    assert_eq!(config.count_encryptions(), 1);
}

#[test]
fn profile_rules() {
    let mut config = Config::new();
    assert_eq!(config.add_encryption("", true), Err(HelperError::InvalidEncryptionProfile));
    assert_eq!(config.add_encryption("token-1", false), Ok(()));
    assert_eq!(
        config.add_encryption("token-1", true),
        Err(HelperError::DuplicateEncryptionProfile)
    );
    assert_eq!(config.add_encryption("token-2", false), Err(HelperError::VaultLocked));
    assert_eq!(config.count_encryptions(), 1);
    assert_eq!(config.add_encryption("token-2", true), Ok(()));
    assert_eq!(config.get_encryptions(), &vec!["token-1".to_string(), "token-2".to_string()]);
}

#[test]
fn encrypting_is_counted_and_idle_when_done() {
    let mut config = Config::new();
    assert_eq!(config.encrypt_databases(), Ok(0));
    config.add_database(database("a", 1), false).unwrap();
    config.add_database(database("b", 2), false).unwrap();
    assert_eq!(config.encrypt_databases(), Err(HelperError::NoEncryptionProfile));
    assert!(!config.databases_encrypted());
    config.add_encryption("token-1", false).unwrap();
    assert_eq!(config.encrypt_databases(), Ok(2));
    assert_eq!(config.count_encrypted_databases(), 2);
    assert_eq!(config.encrypt_databases(), Ok(0));
    assert_eq!(config.encrypt_callers(), Ok(0));
    assert!(!config.callers_encrypted());
}

#[test]
fn decrypting_is_counted_and_idle_when_done() {
    let mut config = Config::new();
    config.add_encryption("token-1", false).unwrap();
    config.add_database(database("a", 1), true).unwrap();
    config.add_caller(caller("/usr/bin/git"), true).unwrap();
    assert_eq!(config.decrypt_databases(), 1);
    assert_eq!(config.decrypt_databases(), 0);
    assert!(!config.clear_encryptions());
    assert_eq!(config.count_encryptions(), 1);
    assert_eq!(config.decrypt_callers(), 1);
    assert_eq!(config.decrypt_callers(), 0);
    assert!(config.clear_encryptions());
    assert_eq!(config.count_encryptions(), 0);
    assert_eq!(config.count_databases(), 1);
    assert_eq!(config.count_callers(), 1);
}

#[test]
fn parts_are_checked() {
    let built = Config::from_parts(
        vec![database("a", 1), database("b", 2)],
        true,
        vec![caller("/usr/bin/git")],
        false,
        vec!["token-1".to_string()],
    )
    .ok()
    .unwrap();
    assert_eq!(built.count_databases(), 2);
    assert_eq!(built.count_encrypted_databases(), 2);
    assert_eq!(built.count_callers(), 1);
    assert_eq!(built.count_encrypted_callers(), 0);
    assert_eq!(built.count_encryptions(), 1);
}

#[test]
fn broken_parts_are_refused() {
    let twice = vec![database("a", 1), database("a", 2)];
    let same_id = Config::from_parts(twice, false, vec![], false, vec![]);
    assert!(matches!(same_id, Err(HelperError::InvalidConfiguration)));
    let no_profile = Config::from_parts(vec![database("a", 1)], true, vec![], false, vec![]);
    assert!(matches!(no_profile, Err(HelperError::InvalidConfiguration)));
    let nothing_encrypted =
        Config::from_parts(vec![], true, vec![], false, vec!["token-1".to_string()]);
    assert!(matches!(nothing_encrypted, Err(HelperError::InvalidConfiguration)));
    let no_callers = Config::from_parts(vec![], false, vec![], true, vec!["token-1".to_string()]);
    assert!(matches!(no_callers, Err(HelperError::InvalidConfiguration)));
    let empty_profile = Config::from_parts(vec![], false, vec![], false, vec!["".to_string()]);
    assert!(matches!(empty_profile, Err(HelperError::InvalidConfiguration)));
    let same_profile = Config::from_parts(
        vec![],
        false,
        vec![],
        false,
        vec!["token-1".to_string(), "token-2".to_string(), "token-1".to_string()],
    );
    assert!(matches!(same_profile, Err(HelperError::InvalidConfiguration)));
    let fine = Config::from_parts(vec![], false, vec![], false, vec!["token-1".to_string()]);
    assert!(fine.is_ok());
}
