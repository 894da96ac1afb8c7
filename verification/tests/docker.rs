use amp_common::config::Credential;
use amp_common::docker::AuthConfig;
use amp_common::utils::credential::{auth_config, build_docker_config, login_text};
use amp_common::utils::map::TextMap;

fn credential(username: Option<&str>, password: Option<&str>) -> Credential {
    Credential { username: username.map(String::from), password: password.map(String::from) }
}

#[test]
fn docker_config_for_one_registry() {
    let mut entries = TextMap::new();
    entries.insert(String::from("registry.io"), credential(Some("u"), Some("p")));
    let config = build_docker_config(&entries);
    let auths = config.auths.unwrap();
    assert_eq!(auths.len(), 1);
    assert_eq!(auths.key_at(0), "registry.io");
    assert_eq!(
        auths.value_at(0),
        &AuthConfig {
            username: Some(String::from("u")),
            password: Some(String::from("p")),
            auth: Some(String::from("dTpw")),
        }
    );
    assert_eq!(auths.get("registry.io").unwrap().auth, Some(String::from("dTpw")));
}

#[test]
fn docker_config_keeps_every_registry_in_order() {
    let mut entries = TextMap::new();
    entries.insert(String::from("b.example"), credential(Some("admin"), Some("hunter2")));
    entries.insert(String::from("a.example"), credential(None, Some("p")));
    entries.insert(String::from("c.example"), credential(None, None));
    let auths = build_docker_config(&entries).auths.unwrap();
    assert_eq!(auths.len(), 3);
    assert_eq!(auths.key_at(0), "b.example");
    assert_eq!(auths.value_at(0).auth, Some(String::from("YWRtaW46aHVudGVyMg==")));
    assert_eq!(auths.key_at(1), "a.example");
    assert_eq!(auths.value_at(1).username, Some(String::new()));
    assert_eq!(auths.value_at(1).auth, Some(String::from("OnA=")));
    assert_eq!(auths.key_at(2), "c.example");
    assert_eq!(auths.value_at(2).password, Some(String::new()));
    assert_eq!(auths.value_at(2).auth, Some(String::from("Og==")));
}

#[test]
fn docker_config_without_registries_is_empty_not_missing() {
    let entries: TextMap<Credential> = TextMap::new();
    let config = build_docker_config(&entries);
    assert_eq!(config.auths.map(|auths| auths.len()), Some(0));
}

#[test]
fn login_text_joins_name_and_password() {
    assert_eq!(login_text(&credential(Some("u"), Some("p"))), "u:p");
    assert_eq!(login_text(&credential(None, None)), ":");
    assert_eq!(credential(Some("u"), None).username_any(), "u");
    assert_eq!(credential(Some("u"), None).password_any(), "");
    let entry = auth_config(&credential(Some("u"), None), String::from("encoded"));
    assert_eq!(
        entry,
        AuthConfig { username: Some(String::from("u")), password: Some(String::new()), auth: Some(String::from("encoded")) }
    );
}

#[test]
fn text_map_replaces_in_place_and_appends_new_keys() {
    let mut map = TextMap::new();
    assert_eq!(map.len(), 0);
    map.insert(String::from("a"), 1);
    map.insert(String::from("b"), 2);
    map.insert(String::from("a"), 3);
    assert_eq!(map.len(), 2);
    assert_eq!(map.key_at(0), "a");
    assert_eq!(*map.value_at(0), 3);
    assert_eq!(map.key_at(1), "b");
    assert_eq!(map.get("b"), Some(&2));
    assert_eq!(map.get("c"), None);
}
