use srpk::vault::{create_guard, init_store, open_guard, temp_path_of};
use srpk::{aes256_decrypt, SrpkError, Vault};

const PASS: &str = "password";
const COST: u8 = 8u8;
const KEY1: &str = "key1";
const KEY2: &str = "key2";

/// A vault path of its own for each test run, so runs never collide.
fn unique_vault_path(tag: &str) -> String {
    let nanos = std::time::SystemTime::now()
        .duration_since(std::time::UNIX_EPOCH)
        .unwrap()
        .as_nanos();
    format!("/tmp/srpk_{}_{}.db", tag, nanos)
}

/// An open session over a fresh, empty working copy.
fn fresh_session(tag: &str) -> Vault {
    let path = unique_vault_path(tag);
    init_store(&temp_path_of(&path)).unwrap();
    Vault::attach(&path, PASS, COST).unwrap()
}

#[test]
fn test_temp_path_of() {
    assert_eq!(temp_path_of("./myvault.db"), "./myvault.db.temp");
}

#[test]
fn test_key_new_get() {
    let mut vault = fresh_session("new_get");
    vault.key_new(KEY1, PASS).unwrap();
    let read: Option<String> = vault.key_get(KEY1).unwrap();
    assert!(read.is_some());
    assert_eq!(read.unwrap(), PASS);
    assert!(vault.key_get(KEY2).unwrap().is_none());
    vault.close(false, None).unwrap();
}

#[test]
fn test_key_new_duplicate() {
    let mut vault = fresh_session("duplicate");
    vault.key_new(KEY1, "a").unwrap();
    match vault.key_new(KEY1, "b") {
        Err(SrpkError::KeyDuplicate(k)) => assert_eq!(k, KEY1),
        other => panic!("expected KeyDuplicate, got {:?}", other),
    }
    // the first value stays
    assert_eq!(vault.key_get(KEY1).unwrap().unwrap(), "a");
}

#[test]
fn test_key_del() {
    let mut vault = fresh_session("del");
    vault.key_new(KEY1, PASS).unwrap();
    vault.key_del(KEY1).unwrap();
    assert!(vault.key_get(KEY1).unwrap().is_none());
}

#[test]
fn test_key_del_missing() {
    let mut vault = fresh_session("del_missing");
    match vault.key_del(KEY1) {
        Err(SrpkError::KeyNonExist(k)) => assert_eq!(k, KEY1),
        other => panic!("expected KeyNonExist, got {:?}", other),
    }
}

#[test]
fn test_key_ls() {
    let mut vault = fresh_session("ls");
    assert!(vault.key_ls().unwrap().is_empty());
    vault.key_new(KEY1, PASS).unwrap();
    let ls = vault.key_ls().unwrap();
    assert_eq!(ls.len(), 1);
    vault.key_new(KEY2, PASS).unwrap();
    let mut ls = vault.key_ls().unwrap();
    assert_eq!(ls.len(), 2);
    ls.sort();
    assert_eq!(ls, vec![KEY1.to_string(), KEY2.to_string()]);
}

#[test]
fn test_value_with_interior_nul_truncates() {
    let mut vault = fresh_session("nul_value");
    vault.key_new(KEY1, "a\0b").unwrap();
    // writes are byte-exact, but the store reads text back as a C string
    assert_eq!(vault.key_get(KEY1).unwrap().unwrap(), "a");
}

#[test]
fn test_key_with_interior_nul() {
    let mut vault = fresh_session("nul_key");
    vault.key_new("x\0y", "v").unwrap();
    // lookups bind the full bytes: the stored key is "x\0y", not "x"
    assert!(vault.key_get("x").unwrap().is_none());
    assert_eq!(vault.key_get("x\0y").unwrap().unwrap(), "v");
    // the listing reads keys back truncated at the NUL
    assert_eq!(vault.key_ls().unwrap(), vec!["x".to_string()]);
}

#[test]
fn test_close_unchanged() {
    let vault = fresh_session("close_unchanged");
    // no re-encryption happens: nothing comes back to overwrite the vault
    let out = vault.close(false, None).unwrap();
    assert!(out.is_none());
}

#[test]
fn test_close_changed_reseals() {
    let vault = fresh_session("close_changed");
    let working: Vec<u8> = b"working copy bytes".to_vec();
    let out = vault.close(true, Some(&working)).unwrap();
    let env = out.expect("close with changes must hand back an envelope");
    assert_ne!(env, working);
    let reopened = aes256_decrypt(&env, PASS).unwrap();
    assert_eq!(reopened.value, working);
    assert_eq!(reopened.cost, COST);
    assert!(aes256_decrypt(&env, "bad_password").is_err());
}

#[test]
fn test_create_guard() {
    assert!(create_guard(false, "./v.db").is_ok());
    match create_guard(true, "./v.db") {
        Err(SrpkError::PathTaken(p)) => assert_eq!(p, "./v.db"),
        other => panic!("expected PathTaken, got {:?}", other),
    }
}

#[test]
fn test_open_guard() {
    assert!(open_guard(true, false, "./v.db", "./v.db.temp").is_ok());
    match open_guard(true, true, "./v.db", "./v.db.temp") {
        Err(SrpkError::PathTaken(p)) => assert_eq!(p, "./v.db.temp"),
        other => panic!("expected PathTaken, got {:?}", other),
    }
    match open_guard(false, false, "./v.db", "./v.db.temp") {
        Err(SrpkError::PathEmpty(p)) => assert_eq!(p, "./v.db"),
        other => panic!("expected PathEmpty, got {:?}", other),
    }
}

#[test]
fn test_attach_unreachable_path() {
    let path = unique_vault_path("missing_dir/no_such");
    assert!(matches!(
        Vault::attach(&path, PASS, COST),
        Err(SrpkError::DBSQLConn)
    ));
}

#[test]
fn test_init_store_twice() {
    let path = unique_vault_path("init_twice");
    init_store(&path).unwrap();
    assert!(matches!(init_store(&path), Err(SrpkError::DBCreate)));
}
