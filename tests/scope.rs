use greet_shell::bootstrap::{Bootstrap, GrantError, Phase};
use greet_shell::scope::AllowList;

#[test]
fn empty_list_denies_everything() {
    let list = AllowList::new();
    assert_eq!(list.len(), 0);
    assert!(!list.is_allowed("/"));
    assert!(!list.is_allowed(""));
}

#[test]
fn recursive_grant_covers_directory_and_descendants() {
    let mut list = AllowList::new();
    list.allow_directory("/data/app", true);
    assert_eq!(list.len(), 2);
    assert!(list.is_allowed("/data/app"));
    assert!(list.is_allowed("/data/app/a.txt"));
    assert!(list.is_allowed("/data/app/x/y/z.txt"));
    assert!(!list.is_allowed("/data/apple"));
    assert!(!list.is_allowed("/data"));
    assert!(!list.is_allowed("/data/app/"));
}

#[test]
fn non_recursive_grant_covers_one_level() {
    let mut list = AllowList::new();
    list.allow_directory("/data/app", false);
    assert!(list.is_allowed("/data/app"));
    assert!(list.is_allowed("/data/app/a.txt"));
    assert!(!list.is_allowed("/data/app/x/y.txt"));
}

#[test]
fn grant_of_directory_with_trailing_separator() {
    let mut list = AllowList::new();
    list.allow_directory("/", true);
    assert!(list.is_allowed("/"));
    assert!(list.is_allowed("/etc/hosts"));
    assert!(!list.is_allowed("relative/path"));
}

#[test]
fn later_grant_keeps_earlier_access() {
    let mut list = AllowList::new();
    list.allow_directory("/a", true);
    list.allow_directory("/b", false);
    assert_eq!(list.len(), 4);
    assert!(list.is_allowed("/a/deep/file"));
    assert!(list.is_allowed("/b/file"));
}

#[test]
fn failed_grant_still_reaches_running() {
    let mut boot = Bootstrap::new();
    assert_eq!(boot.phase(), Phase::Setup);
    let r = boot.apply_grant("/no/such/directory", true, false);
    assert_eq!(r, Err(GrantError::Inaccessible));
    boot.finish_setup();
    assert_eq!(boot.phase(), Phase::Running);
    assert_eq!(boot.scope().len(), 0);
    assert!(!boot.scope().is_allowed("/no/such/directory"));
}

#[test]
fn successful_grant_during_setup() {
    let mut boot = Bootstrap::new();
    assert_eq!(boot.apply_grant("/home/user", true, true), Ok(()));
    boot.finish_setup();
    assert_eq!(boot.phase(), Phase::Running);
    assert!(boot.scope().is_allowed("/home/user/docs/a.txt"));
}

#[test]
fn grant_after_setup_is_refused() {
    let mut boot = Bootstrap::new();
    boot.finish_setup();
    assert_eq!(boot.apply_grant("/home/user", true, true), Err(GrantError::AfterSetup));
    assert_eq!(boot.scope().len(), 0);
}
