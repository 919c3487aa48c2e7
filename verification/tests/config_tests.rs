use trump::config::{load_config, save_config, AuthData, AuthType, Config, SavedTarget};

fn password(secret: &str) -> AuthData {
    AuthData { auth_type: AuthType::Password, secret: secret.to_string() }
}

fn key_path(path: &str) -> AuthData {
    AuthData { auth_type: AuthType::KeyPath, secret: path.to_string() }
}

fn entry(key: &str, data: AuthData) -> SavedTarget {
    SavedTarget { key: key.to_string(), data }
}

#[test]
fn a_new_configuration_is_empty() {
    let c = Config::new();
    assert_eq!(c.len(), 0);
    assert!(!c.contains("alice@example.com:22"));
    assert_eq!(c.get("alice@example.com:22"), None);
    assert_eq!(Config::default(), Config::new());
}

#[test]
fn what_is_remembered_is_found_under_its_key() {
    let mut c = Config::new();
    assert!(c.remember("alice@example.com:22".to_string(), password("c2VhbGVk")));
    assert!(c.remember("bob@example.com:22".to_string(), key_path("/home/bob/.ssh/id")));
    assert_eq!(c.len(), 2);
    assert_eq!(c.get("alice@example.com:22"), Some(&password("c2VhbGVk")));
    assert_eq!(c.get("bob@example.com:22"), Some(&key_path("/home/bob/.ssh/id")));
    assert_eq!(c.get("alice@example.com:2222"), None);
    assert!(c.contains("bob@example.com:22"));
}

#[test]
fn an_entry_is_never_replaced() {
    let mut c = Config::new();
    assert!(c.remember("alice@h:22".to_string(), password("first")));
    assert!(!c.remember("alice@h:22".to_string(), password("second")));
    assert!(!c.remember("alice@h:22".to_string(), key_path("/k")));
    assert_eq!(c.len(), 1);
    assert_eq!(c.get("alice@h:22"), Some(&password("first")));
}

#[test]
fn missing_storage_gives_the_empty_configuration() {
    assert_eq!(load_config(None), Config::new());
    assert_eq!(load_config(Some(Vec::new())), Config::new());
}

#[test]
fn stored_entries_are_loaded_and_the_first_of_a_key_counts() {
    let c = load_config(Some(vec![
        entry("a@h:22", password("one")),
        entry("b@h:22", key_path("/k")),
        entry("a@h:22", password("two")),
    ]));
    assert_eq!(c.len(), 2);
    assert_eq!(c.get("a@h:22"), Some(&password("one")));
    assert_eq!(c.get("b@h:22"), Some(&key_path("/k")));
}

#[test]
fn what_is_saved_loads_to_the_same_configuration() {
    let mut c = Config::new();
    c.remember("a@h:22".to_string(), password("one"));
    c.remember("b@h:2222".to_string(), key_path("/k"));
    let entries = save_config(&c);
    assert_eq!(entries, vec![entry("a@h:22", password("one")), entry("b@h:2222", key_path("/k"))]);
    assert_eq!(load_config(Some(entries)), c);
}

#[test]
fn saving_leaves_out_entries_that_do_not_count() {
    let c = Config {
        targets: vec![entry("a@h:22", password("one")), entry("a@h:22", password("two"))],
    };
    assert_eq!(c.get("a@h:22"), Some(&password("one")));
    assert_eq!(save_config(&c), vec![entry("a@h:22", password("one"))]);
}

#[test]
fn a_copy_of_a_credential_is_equal_to_it() {
    let d = password("x");
    assert_eq!(d.clone(), d);
}
