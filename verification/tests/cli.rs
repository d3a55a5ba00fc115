use srpk::{all, param_check, vault_check, CliAction, SrpkError};

#[test]
fn test_param_check() {
    let arg = String::from("mykey");
    assert!(param_check(&Some(&arg)).is_ok());
    assert!(matches!(param_check(&None), Err(SrpkError::NoParam)));
}

#[test]
fn test_vault_check() {
    let active = Some(String::from("./v.db"));
    assert_eq!(vault_check(active).unwrap(), "./v.db");
    assert!(matches!(vault_check(None), Err(SrpkError::NoVault)));
}

#[test]
fn test_all_with_active_vault() {
    match all("github", Some(String::from("./v.db"))) {
        CliAction::Lookup { path, key } => {
            assert_eq!(path, "./v.db");
            assert_eq!(key, "github");
        }
        CliAction::ShowHelp => panic!("expected a lookup"),
    }
}

#[test]
fn test_all_without_active_vault() {
    assert!(matches!(all("github", None), CliAction::ShowHelp));
}
