use git_credential_keepassxc::commands::{
    caller, configure, decrypt, encrypt, erase_login, log_level, needs_secondary_confirmation,
    select_subcommand, CallerCommand, LogLevel, Subcommand, VaultReport,
};
use git_credential_keepassxc::config::{Caller, Config, Database, Group};
use git_credential_keepassxc::error::HelperError;

fn database(id: &str, seed: u8) -> Database {
    Database::new(id.to_string(), &[seed; 32], Group::new("Git".to_string(), "g".to_string()))
}

fn group() -> Group {
    Group::new("Git".to_string(), "group-uuid".to_string())
}

fn plain_config() -> Config {
    let mut config = Config::new();
    config.add_database(database("a", 1), false).unwrap();
    config.add_database(database("b", 2), false).unwrap();
    let git = Caller { path: "/usr/bin/git".to_string(), uid: None, gid: None };
    config.add_caller(git, false).unwrap();
    config
}

fn add(path: &str, uid: Option<&str>, gid: Option<&str>, encrypt: Option<&str>) -> CallerCommand {
    CallerCommand::Add {
        path: path.to_string(),
        uid: uid.map(|s| s.to_string()),
        gid: gid.map(|s| s.to_string()),
        encrypt: encrypt.map(|s| s.to_string()),
    }
}

#[test]
fn subcommands_are_known_by_name() {
    assert_eq!(select_subcommand(Some("configure")), Ok(Subcommand::Configure));
    assert_eq!(select_subcommand(Some("encrypt")), Ok(Subcommand::Encrypt));
    assert_eq!(select_subcommand(Some("decrypt")), Ok(Subcommand::Decrypt));
    assert_eq!(select_subcommand(Some("caller")), Ok(Subcommand::Caller));
    assert_eq!(select_subcommand(Some("get")), Ok(Subcommand::Get));
    assert_eq!(select_subcommand(Some("store")), Ok(Subcommand::Store));
    assert_eq!(select_subcommand(Some("erase")), Ok(Subcommand::Erase));
}

#[test]
fn other_names_are_refused() {
    assert_eq!(select_subcommand(None), Err(HelperError::NoSubcommand));
    assert_eq!(select_subcommand(Some("")), Err(HelperError::UnknownSubcommand));
    assert_eq!(select_subcommand(Some("Get")), Err(HelperError::UnknownSubcommand));
    assert_eq!(select_subcommand(Some("get ")), Err(HelperError::UnknownSubcommand));
    assert_eq!(select_subcommand(Some("remove")), Err(HelperError::UnknownSubcommand));
}

#[test]
fn verbosity_raises_the_log_level() {
    assert_eq!(log_level(0), LogLevel::Error);
    assert_eq!(log_level(1), LogLevel::Warning);
    assert_eq!(log_level(2), LogLevel::Info);
    assert_eq!(log_level(3), LogLevel::Debug);
    assert_eq!(log_level(4), LogLevel::Trace);
    assert_eq!(log_level(5), LogLevel::Trace);
    assert_eq!(log_level(u64::MAX), LogLevel::Trace);
    assert_eq!(LogLevel::Critical.as_usize(), 1);
    assert_eq!(log_level(0).as_usize(), 2);
    assert_eq!(log_level(3).as_usize(), 5);
    assert_eq!(log_level(100).as_usize(), 6);
}

#[test]
fn erase_never_fails() {
    assert_eq!(erase_login("protocol=https\nhost=example.com\nusername=a\npassword=b\n"), Ok(()));
    assert_eq!(erase_login(""), Ok(()));
    assert_eq!(erase_login("garbage without equals sign"), Ok(()));
    assert_eq!(erase_login("host=only\n"), Ok(()));
}

#[test]
fn decrypt_without_anything_encrypted_does_nothing() {
    let mut config = plain_config();
    config.add_encryption("token-1", false).unwrap();
    assert_eq!(decrypt(&mut config), None);
    assert_eq!(config.count_encryptions(), 1);
    assert_eq!(config.count_databases(), 2);
}

#[test]
fn decrypt_clears_the_profiles() {
    let mut config = plain_config();
    let all = VaultReport { databases: 2, callers: 1 };
    assert_eq!(encrypt(&mut config, Some("token-1"), false), Ok(Some(all)));
    assert_eq!(decrypt(&mut config), Some(all));
    assert_eq!(config.count_encrypted_databases(), 0);
    assert_eq!(config.count_encrypted_callers(), 0);
    assert_eq!(config.count_encryptions(), 0);
    assert_eq!(config.count_databases(), 2);
    assert_eq!(config.count_callers(), 1);
    assert_eq!(decrypt(&mut config), None);
}

#[test]
fn decrypt_of_one_collection() {
    let mut config = plain_config();
    config.add_encryption("token-1", false).unwrap();
    config.encrypt_callers().unwrap();
    assert_eq!(decrypt(&mut config), Some(VaultReport { databases: 0, callers: 1 }));
    assert_eq!(config.count_encryptions(), 0);
}

#[test]
fn encrypt_with_new_profile() {
    let mut config = plain_config();
    let report = encrypt(&mut config, Some("token-1"), false);
    assert_eq!(report, Ok(Some(VaultReport { databases: 2, callers: 1 })));
    assert_eq!(config.count_encrypted_databases(), 2);
    assert_eq!(config.count_encrypted_callers(), 1);
    assert_eq!(config.get_encryptions(), &vec!["token-1".to_string()]);
}

#[test]
fn encrypt_when_all_is_encrypted_does_nothing() {
    let mut config = plain_config();
    encrypt(&mut config, Some("token-1"), false).unwrap();
    assert_eq!(encrypt(&mut config, None, false), Ok(None));
    assert_eq!(encrypt(&mut config, Some(""), false), Ok(None));
    assert_eq!(config.count_encryptions(), 1);
}

#[test]
fn encrypt_adds_a_further_profile() {
    let mut config = plain_config();
    encrypt(&mut config, Some("token-1"), false).unwrap();
    assert_eq!(encrypt(&mut config, Some("token-2"), false), Err(HelperError::VaultLocked));
    assert_eq!(config.count_encryptions(), 1);
    assert_eq!(
        encrypt(&mut config, Some("token-2"), true),
        Ok(Some(VaultReport { databases: 0, callers: 0 }))
    );
    assert_eq!(config.count_encryptions(), 2);
    assert_eq!(
        encrypt(&mut config, Some("token-2"), true),
        Err(HelperError::DuplicateEncryptionProfile)
    );
}

#[test]
fn encrypt_without_profile_uses_the_existing_one() {
    let mut config = plain_config();
    assert_eq!(encrypt(&mut config, None, false), Err(HelperError::NoEncryptionProfile));
    assert_eq!(config.count_encrypted_databases(), 0);
    assert_eq!(encrypt(&mut config, Some(""), false), Err(HelperError::InvalidEncryptionProfile));
    config.add_encryption("token-1", false).unwrap();
    let all = VaultReport { databases: 2, callers: 1 };
    assert_eq!(encrypt(&mut config, None, false), Ok(Some(all)));
}

#[test]
fn encrypt_of_an_empty_configuration() {
    let mut config = Config::new();
    assert_eq!(encrypt(&mut config, None, false), Ok(None));
    let nothing = VaultReport { databases: 0, callers: 0 };
    assert_eq!(encrypt(&mut config, Some("token-1"), false), Ok(Some(nothing)));
    assert_eq!(config.count_encryptions(), 1);
    assert!(!config.databases_encrypted());
    assert!(!config.callers_encrypted());
}

#[test]
fn confirmation_is_asked_for_a_second_profile() {
    let mut config = plain_config();
    assert!(!needs_secondary_confirmation(&config, Some("token-1")));
    config.add_encryption("token-1", false).unwrap();
    assert!(needs_secondary_confirmation(&config, Some("token-2")));
    assert!(!needs_secondary_confirmation(&config, Some("")));
    assert!(!needs_secondary_confirmation(&config, None));
}

#[test]
fn configure_records_the_association() {
    let mut config = Config::new();
    let secret = [4u8; 32];
    let id = Some("db".to_string());
    assert_eq!(configure(&mut config, id, &secret, group(), None, false), Ok(()));
    assert_eq!(config.count_databases(), 1);
    assert!(config.get_databases()[0] == Database::new("db".to_string(), &secret, group()));
    assert_eq!(config.get_databases()[0].group, "Git");
    assert_eq!(config.get_databases()[0].group_uuid, "group-uuid");
    assert_eq!(config.count_encrypted_databases(), 0);
}

#[test]
fn configure_without_identifier_fails() {
    let mut config = Config::new();
    assert_eq!(
        configure(&mut config, None, &[4u8; 32], group(), Some("token-1"), false),
        Err(HelperError::AssociationFailed)
    );
    assert_eq!(config.count_databases(), 0);
    assert_eq!(config.count_encryptions(), 0);
}

#[test]
fn configure_with_profile_encrypts_the_databases() {
    let mut config = plain_config();
    assert_eq!(
        configure(&mut config, Some("c".to_string()), &[4u8; 32], group(), Some("token-1"), false),
        Ok(())
    );
    assert_eq!(config.count_databases(), 3);
    assert_eq!(config.count_encrypted_databases(), 3);
    assert_eq!(config.count_encrypted_callers(), 0);
    assert_eq!(config.count_encryptions(), 1);
}

#[test]
fn configure_with_refused_profile_changes_nothing() {
    let mut config = plain_config();
    config.add_encryption("token-1", false).unwrap();
    assert_eq!(
        configure(&mut config, Some("c".to_string()), &[4u8; 32], group(), Some("token-1"), true),
        Err(HelperError::DuplicateEncryptionProfile)
    );
    assert_eq!(
        configure(&mut config, Some("c".to_string()), &[4u8; 32], group(), Some("token-2"), false),
        Err(HelperError::VaultLocked)
    );
    assert_eq!(
        configure(&mut config, Some("c".to_string()), &[4u8; 32], group(), Some(""), true),
        Err(HelperError::InvalidEncryptionProfile)
    );
    assert_eq!(config.count_databases(), 2);
    assert_eq!(config.count_encryptions(), 1);
}

#[test]
fn caller_is_added_with_numbers() {
    let mut config = Config::new();
    let git = add("/usr/bin/git", Some("1000"), Some("+100"), None);
    assert_eq!(caller(&mut config, git, false), Ok(()));
    assert_eq!(
        config.get_callers()[0],
        Caller { path: "/usr/bin/git".to_string(), uid: Some(1000), gid: Some(100) }
    );
    let ssh = add("/usr/bin/ssh", None, Some("4294967295"), None);
    assert_eq!(caller(&mut config, ssh, false), Ok(()));
    assert_eq!(
        config.get_callers()[1],
        Caller { path: "/usr/bin/ssh".to_string(), uid: None, gid: Some(u32::MAX) }
    );
}

#[test]
fn caller_with_bad_number_is_refused() {
    let mut config = Config::new();
    for bad in ["", "abc", "-1", "4294967296", "12a", " 12", "+", "1e3"] {
        assert_eq!(
            caller(&mut config, add("/usr/bin/git", Some(bad), None, Some("token-1")), false),
            Err(HelperError::InvalidCallerId),
            "{:?}",
            bad
        );
        assert_eq!(
            caller(&mut config, add("/usr/bin/git", None, Some(bad), None), false),
            Err(HelperError::InvalidCallerId),
            "{:?}",
            bad
        );
    }
    assert_eq!(config.count_callers(), 0);
    assert_eq!(config.count_encryptions(), 0);
}

#[test]
fn caller_with_profile_is_encrypted() {
    let mut config = Config::new();
    let git = add("/usr/bin/git", None, None, Some("token-1"));
    assert_eq!(caller(&mut config, git, false), Ok(()));
    assert_eq!(config.count_encrypted_callers(), 1);
    assert_eq!(config.count_encryptions(), 1);
    assert_eq!(
        caller(&mut config, add("/usr/bin/ssh", None, None, Some("token-1")), true),
        Err(HelperError::DuplicateEncryptionProfile)
    );
    assert_eq!(config.count_callers(), 1);
}

#[test]
fn callers_are_cleared() {
    let mut config = plain_config();
    assert_eq!(caller(&mut config, CallerCommand::Clear, false), Ok(()));
    assert_eq!(config.count_callers(), 0);
    assert_eq!(config.count_databases(), 2);
}

#[test]
fn every_failure_has_its_text() {
    assert_eq!(HelperError::CallerDenied.describe(), "You are not allowed to use this program");
    assert_eq!(HelperError::NoMatchingLogin.describe(), "No matching logins found");
    assert_eq!(
        HelperError::NoValidDatabase.describe(),
        "No valid database associations found in configuration file"
    );
    assert_eq!(HelperError::Handshake.describe(), "Failed to retrieve host public key");
    assert_eq!(HelperError::AssociationFailed.describe(), "Association failed");
    assert_eq!(HelperError::StoreRejected.describe(), "Failed to store login");
    assert_eq!(
        HelperError::IncompleteRequest.describe(),
        "Protocol and host are both required when URL is not provided"
    );
    assert_eq!(
        HelperError::NoRandomness.describe(),
        "The operating system gave no randomness"
    );
    assert!(HelperError::DatabaseLocked.is_retryable());
    assert!(!HelperError::Protocol.is_retryable());
    assert!(!HelperError::NoValidDatabase.is_retryable());
}
