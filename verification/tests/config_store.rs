use proxy_env_switcher::config::ProxyConfig;
use proxy_env_switcher::config_store::ConfigStore;
use proxy_env_switcher::config_store::CONFIG_NOT_FOUND;

fn profile(id: &str, name: &str, port: u16) -> ProxyConfig {
    ProxyConfig {
        id: id.to_string(),
        name: name.to_string(),
        protocol: "socks5".to_string(),
        host: "127.0.0.1".to_string(),
        port,
        username: None,
        password: None,
        enabled: true,
    }
}

fn ids(store: &ConfigStore) -> Vec<String> {
    let mut out = Vec::new();
    for c in store.list_configs() {
        out.push(c.id);
    }
    out
}

#[test]
fn new_config_store_is_empty() {
    let store = ConfigStore::new();
    assert_eq!(store.len(), 0);
    assert_eq!(store.list_configs(), Vec::<ProxyConfig>::new());
}

#[test]
fn config_lifecycle_add_update_delete() {
    let mut store = ConfigStore::new();
    let home = profile("p1", "Home", 1080);

    let returned = store.add_config(home.clone());
    assert_eq!(returned, home);
    assert_eq!(store.list_configs(), vec![home.clone()]);

    let moved = profile("p1", "Home", 1081);
    let updated = store.update_config(moved.clone());
    assert_eq!(updated, Ok(moved.clone()));
    assert_eq!(updated.unwrap().port, 1081);
    let listed = store.list_configs();
    assert_eq!(listed.len(), 1);
    assert_eq!(listed[0].port, 1081);
    assert_eq!(listed, vec![moved]);

    assert_eq!(store.delete_config("p1"), Ok(()));
    assert_eq!(store.list_configs(), Vec::<ProxyConfig>::new());
    assert_eq!(store.delete_config("p1"), Err("Proxy config not found".to_string()));
}

#[test]
fn configs_are_listed_in_insertion_order() {
    let mut store = ConfigStore::new();
    let added = vec![
        profile("c", "third letter first", 3),
        profile("a", "first letter second", 1),
        profile("b", "second letter third", 2),
        profile("", "empty id", 4),
    ];
    for p in &added {
        store.add_config(p.clone());
    }
    assert_eq!(store.len(), 4);
    assert_eq!(store.list_configs(), added);
}

#[test]
fn add_config_returns_the_profile_with_every_field() {
    let mut store = ConfigStore::new();
    let full = ProxyConfig {
        id: "office".to_string(),
        name: "Office \u{1F3E2}".to_string(),
        protocol: "http".to_string(),
        host: "proxy.example.org".to_string(),
        port: 65535,
        username: Some("alice".to_string()),
        password: Some("s3cret".to_string()),
        enabled: false,
    };
    let returned = store.add_config(full.clone());
    assert_eq!(returned, full);
    let listed = store.list_configs();
    assert_eq!(listed.len(), 1);
    assert_eq!(listed[0].id, "office");
    assert_eq!(listed[0].name, "Office \u{1F3E2}");
    assert_eq!(listed[0].protocol, "http");
    assert_eq!(listed[0].host, "proxy.example.org");
    assert_eq!(listed[0].port, 65535);
    assert_eq!(listed[0].username, Some("alice".to_string()));
    assert_eq!(listed[0].password, Some("s3cret".to_string()));
    assert!(!listed[0].enabled);
}

#[test]
fn list_configs_is_a_copy() {
    let mut store = ConfigStore::new();
    store.add_config(profile("p1", "Home", 1080));
    let mut snapshot = store.list_configs();
    snapshot[0].port = 9;
    snapshot.push(profile("p2", "Work", 8080));
    assert_eq!(store.list_configs(), vec![profile("p1", "Home", 1080)]);
}

#[test]
fn update_config_replaces_only_the_matching_entry_in_place() {
    let mut store = ConfigStore::new();
    store.add_config(profile("a", "A", 1));
    store.add_config(profile("b", "B", 2));
    store.add_config(profile("c", "C", 3));

    let replacement = ProxyConfig {
        id: "b".to_string(),
        name: "B renamed".to_string(),
        protocol: "http".to_string(),
        host: "10.0.0.2".to_string(),
        port: 22,
        username: Some("bob".to_string()),
        password: None,
        enabled: false,
    };
    assert_eq!(store.update_config(replacement.clone()), Ok(replacement.clone()));
    assert_eq!(
        store.list_configs(),
        vec![profile("a", "A", 1), replacement, profile("c", "C", 3)]
    );
}

#[test]
fn update_config_replaces_all_fields_not_a_patch() {
    let mut store = ConfigStore::new();
    let mut with_login = profile("p1", "Home", 1080);
    with_login.username = Some("carol".to_string());
    with_login.password = Some("pw".to_string());
    store.add_config(with_login);

    let without_login = profile("p1", "Home", 1080);
    assert_eq!(store.update_config(without_login.clone()), Ok(without_login));
    let listed = store.list_configs();
    assert_eq!(listed[0].username, None);
    assert_eq!(listed[0].password, None);
}

#[test]
fn update_config_with_unknown_id_fails_and_changes_nothing() {
    let mut store = ConfigStore::new();
    store.add_config(profile("a", "A", 1));
    store.add_config(profile("b", "B", 2));
    let before = store.list_configs();

    let outcome = store.update_config(profile("zz", "Nobody", 9));
    assert_eq!(outcome, Err("Proxy config not found".to_string()));
    assert_eq!(store.list_configs(), before);
    assert_eq!(store.len(), 2);
}

#[test]
fn update_config_on_empty_store_fails() {
    let mut store = ConfigStore::new();
    assert_eq!(
        store.update_config(profile("p1", "Home", 1080)),
        Err(CONFIG_NOT_FOUND.to_string())
    );
    assert_eq!(store.len(), 0);
}

#[test]
fn update_config_matches_the_whole_id_only() {
    let mut store = ConfigStore::new();
    store.add_config(profile("p1", "Home", 1080));
    assert!(store.update_config(profile("p", "prefix", 1)).is_err());
    assert!(store.update_config(profile("p10", "longer", 1)).is_err());
    assert!(store.update_config(profile("P1", "other case", 1)).is_err());
    assert_eq!(store.list_configs(), vec![profile("p1", "Home", 1080)]);
}

#[test]
fn delete_config_removes_one_entry_and_keeps_the_order() {
    let mut store = ConfigStore::new();
    store.add_config(profile("a", "A", 1));
    store.add_config(profile("b", "B", 2));
    store.add_config(profile("c", "C", 3));
    store.add_config(profile("d", "D", 4));

    assert_eq!(store.delete_config("b"), Ok(()));
    assert_eq!(store.len(), 3);
    assert_eq!(ids(&store), vec!["a", "c", "d"]);

    assert_eq!(store.delete_config("b"), Err("Proxy config not found".to_string()));
    assert_eq!(store.len(), 3);
    assert_eq!(ids(&store), vec!["a", "c", "d"]);
}

#[test]
fn delete_config_of_first_and_last_entry() {
    let mut store = ConfigStore::new();
    store.add_config(profile("a", "A", 1));
    store.add_config(profile("b", "B", 2));
    store.add_config(profile("c", "C", 3));

    assert_eq!(store.delete_config("a"), Ok(()));
    assert_eq!(ids(&store), vec!["b", "c"]);
    assert_eq!(store.delete_config("c"), Ok(()));
    assert_eq!(ids(&store), vec!["b"]);
    assert_eq!(store.delete_config("b"), Ok(()));
    assert_eq!(store.len(), 0);
}

#[test]
fn delete_config_with_unknown_id_fails_and_changes_nothing() {
    let mut store = ConfigStore::new();
    assert_eq!(store.delete_config("p1"), Err(CONFIG_NOT_FOUND.to_string()));
    store.add_config(profile("a", "A", 1));
    let before = store.list_configs();
    assert_eq!(store.delete_config("b"), Err("Proxy config not found".to_string()));
    assert_eq!(store.delete_config(""), Err("Proxy config not found".to_string()));
    assert_eq!(store.list_configs(), before);
}

#[test]
fn add_config_accepts_a_duplicate_id() {
    let mut store = ConfigStore::new();
    let first = profile("dup", "first", 1);
    let second = profile("dup", "second", 2);
    assert_eq!(store.add_config(first.clone()), first);
    assert_eq!(store.add_config(second.clone()), second);
    assert_eq!(store.len(), 2);
    assert_eq!(store.list_configs(), vec![first, second]);
}

#[test]
fn update_config_with_duplicate_ids_touches_the_first_only() {
    let mut store = ConfigStore::new();
    store.add_config(profile("x", "other", 0));
    store.add_config(profile("dup", "first", 1));
    store.add_config(profile("dup", "second", 2));

    let replacement = profile("dup", "replaced", 3);
    assert_eq!(store.update_config(replacement.clone()), Ok(replacement.clone()));
    assert_eq!(
        store.list_configs(),
        vec![profile("x", "other", 0), replacement, profile("dup", "second", 2)]
    );
}

#[test]
fn delete_config_with_duplicate_ids_removes_the_first_only() {
    let mut store = ConfigStore::new();
    store.add_config(profile("dup", "first", 1));
    store.add_config(profile("x", "other", 0));
    store.add_config(profile("dup", "second", 2));

    assert_eq!(store.delete_config("dup"), Ok(()));
    assert_eq!(
        store.list_configs(),
        vec![profile("x", "other", 0), profile("dup", "second", 2)]
    );
    assert_eq!(store.delete_config("dup"), Ok(()));
    assert_eq!(store.list_configs(), vec![profile("x", "other", 0)]);
    assert_eq!(store.delete_config("dup"), Err("Proxy config not found".to_string()));
}

#[test]
fn config_ids_with_multibyte_characters_are_told_apart() {
    let mut store = ConfigStore::new();
    store.add_config(profile("caf\u{e9}", "accent", 1));
    store.add_config(profile("cafe", "plain", 2));
    assert!(store.delete_config("caf").is_err());
    assert_eq!(store.delete_config("cafe"), Ok(()));
    assert_eq!(ids(&store), vec!["caf\u{e9}"]);
    assert_eq!(store.delete_config("caf\u{e9}"), Ok(()));
    assert_eq!(store.len(), 0);
}

#[test]
fn config_not_found_message_is_exact() {
    assert_eq!(CONFIG_NOT_FOUND, "Proxy config not found");
}

#[test]
fn proxy_config_clone_keeps_every_field() {
    let first = ProxyConfig {
        id: "p9".to_string(),
        name: "Nine".to_string(),
        protocol: "https".to_string(),
        host: "h".to_string(),
        port: 0,
        username: Some(String::new()),
        password: None,
        enabled: true,
    };
    let copy = first.clone();
    assert_eq!(copy, first);
    assert_eq!(copy.username, Some(String::new()));
}
