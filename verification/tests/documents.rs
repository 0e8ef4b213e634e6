use beamup::config::{default_config, install_ids, pick_otp_major_vsn, InstallEntry, ScopeConfig};
use beamup::table::{assoc_get, find_key_index, upsert};

#[test]
fn fresh_document_has_all_scopes_empty() {
    let c = default_config("/data/beamup".to_string());
    assert_eq!(c.install_dir, "/data/beamup");
    for scope in [&c.erlang, &c.gleam, &c.elixir, &c.elp, &c.rebar3] {
        let s = scope.as_ref().expect("every scope starts present");
        assert!(s.default.is_none());
        assert!(s.installs.is_empty());
    }
}

#[test]
fn otp_version_comes_from_first_release_subdirectory() {
    let entries = vec![
        ("COPYRIGHT".to_string(), false),
        ("27".to_string(), true),
        ("26".to_string(), true),
    ];
    assert_eq!(pick_otp_major_vsn(&entries), Some("27".to_string()));
    let none = vec![("README".to_string(), false)];
    assert_eq!(pick_otp_major_vsn(&none), None);
    assert_eq!(pick_otp_major_vsn(&vec![]), None);
}

#[test]
fn install_ids_list_the_table_keys() {
    let scope = ScopeConfig {
        default: None,
        default_build_options: None,
        installs: vec![
            ("27.0".to_string(), InstallEntry::Dir("/a".to_string())),
            ("master".to_string(), InstallEntry::Dir("/b".to_string())),
        ],
    };
    assert_eq!(install_ids(&scope), vec!["27.0".to_string(), "master".to_string()]);
}

#[test]
fn upsert_replaces_in_place_and_appends_fresh_keys() {
    let entries: Vec<(String, u64)> = vec![("a".to_string(), 1), ("b".to_string(), 2)];
    let entries = upsert(entries, "b", 20);
    assert_eq!(entries, vec![("a".to_string(), 1), ("b".to_string(), 20)]);
    let entries = upsert(entries, "c", 3);
    assert_eq!(
        entries,
        vec![("a".to_string(), 1), ("b".to_string(), 20), ("c".to_string(), 3)]
    );
}

#[test]
fn lookup_finds_first_binding() {
    let entries: Vec<(String, u64)> = vec![("k".to_string(), 1), ("k".to_string(), 2)];
    assert_eq!(assoc_get(&entries, "k"), Some(&1));
    assert_eq!(assoc_get(&entries, "missing"), None);
    assert_eq!(find_key_index(&entries, "k"), Some(0));
    assert_eq!(find_key_index(&entries, "missing"), None);
}
