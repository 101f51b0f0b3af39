use git_credential_keepassxc::auth::{verification_skipped, verify_caller, ParentProcess};
use git_credential_keepassxc::config::{Caller, Config, Database, Group};
use git_credential_keepassxc::error::HelperError;

fn caller(path: &str, uid: Option<u32>, gid: Option<u32>) -> Caller {
    Caller { path: path.to_string(), uid, gid }
}

fn parent(path: &str, uid: Option<u32>, gid: Option<u32>) -> ParentProcess {
    ParentProcess { pid: 4242, path: path.to_string(), uid, gid }
}

fn config(callers: Vec<Caller>, databases: usize) -> Config {
    let mut config = Config::new();
    for i in 0..databases {
        let database = Database::new(
            format!("db{}", i),
            &[9u8; 32],
            Group::new("Git".to_string(), "g".to_string()),
        );
        config.add_database(database, false).unwrap();
    }
    for caller in callers {
        config.add_caller(caller, false).unwrap();
    }
    config
}

#[test]
fn empty_allow_list_without_databases_lets_everybody_in() {
    let empty = config(vec![], 0);
    let git = parent("/usr/bin/git", Some(1000), Some(1000));
    assert_eq!(verify_caller(&empty, false, Some(&git)), Ok(None));
    assert_eq!(verify_caller(&empty, true, Some(&git)), Ok(None));
    assert_eq!(verify_caller(&empty, true, None), Ok(None));
    assert!(verification_skipped(&empty, true));
}

#[test]
fn empty_allow_list_with_databases_depends_on_strict_mode() {
    let configured = config(vec![], 1);
    let git = parent("/usr/bin/git", Some(1000), Some(1000));
    assert_eq!(verify_caller(&configured, false, Some(&git)), Ok(None));
    assert_eq!(verify_caller(&configured, true, Some(&git)), Err(HelperError::CallerDenied));
    assert!(verification_skipped(&configured, false));
    assert!(!verification_skipped(&configured, true));
}

#[test]
fn unlisted_path_is_denied() {
    let listed = config(vec![caller("/usr/bin/git", None, None)], 1);
    let other = parent("/usr/bin/evil", Some(1000), Some(1000));
    assert_eq!(verify_caller(&listed, false, Some(&other)), Err(HelperError::CallerDenied));
    assert_eq!(verify_caller(&listed, true, Some(&other)), Err(HelperError::CallerDenied));
    let unconfigured = config(vec![caller("/usr/bin/git", None, None)], 0);
    assert_eq!(verify_caller(&unconfigured, false, Some(&other)), Err(HelperError::CallerDenied));
}

#[test]
fn listed_path_is_admitted_and_named() {
    let callers = vec![caller("/usr/bin/ssh", None, None), caller("/usr/bin/git", None, None)];
    let listed = config(callers, 1);
    let git = parent("/usr/bin/git", Some(1000), Some(100));
    assert_eq!(
        verify_caller(&listed, false, Some(&git)),
        Ok(Some((4242, "/usr/bin/git".to_string())))
    );
}

#[test]
fn user_and_group_must_agree_where_asked_for() {
    let listed = config(vec![caller("/usr/bin/git", Some(1000), Some(100))], 1);
    let right = parent("/usr/bin/git", Some(1000), Some(100));
    let wrong_user = parent("/usr/bin/git", Some(1001), Some(100));
    let wrong_group = parent("/usr/bin/git", Some(1000), Some(101));
    assert!(verify_caller(&listed, false, Some(&right)).is_ok());
    assert_eq!(verify_caller(&listed, false, Some(&wrong_user)), Err(HelperError::CallerDenied));
    assert_eq!(verify_caller(&listed, false, Some(&wrong_group)), Err(HelperError::CallerDenied));
}

#[test]
fn any_entry_may_admit() {
    let listed = config(
        vec![caller("/usr/bin/git", Some(1), None), caller("/usr/bin/git", Some(1000), None)],
        1,
    );
    let git = parent("/usr/bin/git", Some(1000), Some(100));
    assert!(verify_caller(&listed, false, Some(&git)).is_ok());
}

#[test]
fn unknown_owner_is_admitted_only_where_none_is_asked_for() {
    let unknown = parent("C:\\git.exe", None, None);
    let by_path = config(vec![caller("C:\\git.exe", None, None)], 1);
    assert!(verify_caller(&by_path, false, Some(&unknown)).is_ok());
    assert!(verify_caller(&by_path, true, Some(&unknown)).is_ok());
    let by_user = config(vec![caller("C:\\git.exe", Some(1000), None)], 1);
    assert_eq!(verify_caller(&by_user, false, Some(&unknown)), Err(HelperError::CallerDenied));
    assert_eq!(verify_caller(&by_user, true, Some(&unknown)), Err(HelperError::CallerDenied));
    let by_group = config(vec![caller("C:\\git.exe", None, Some(100))], 1);
    assert_eq!(verify_caller(&by_group, true, Some(&unknown)), Err(HelperError::CallerDenied));
    let half_known = parent("C:\\git.exe", Some(1000), None);
    assert!(verify_caller(&by_user, true, Some(&half_known)).is_ok());
    assert_eq!(verify_caller(&by_group, true, Some(&half_known)), Err(HelperError::CallerDenied));
}

#[test]
fn unknown_parent_is_denied() {
    let listed = config(vec![caller("/usr/bin/git", None, None)], 1);
    assert_eq!(verify_caller(&listed, false, None), Err(HelperError::CallerDenied));
}
