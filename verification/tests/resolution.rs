use beamup::config::{
    add_install, component_install_to_use, default_config, install_to_use, lookup_default_build_options,
    lookup_install_by_id, set_default, switch, Config, InstallEntry, LocalOverride, ScopeConfig,
};
use beamup::components::Kind;
use beamup::error::Error;
use beamup::languages::Language;

fn scope_with(entries: Vec<(String, InstallEntry)>, default: Option<&str>) -> ScopeConfig {
    ScopeConfig {
        default: default.map(|s| s.to_string()),
        default_build_options: None,
        installs: entries,
    }
}

fn record(dir: &str) -> InstallEntry {
    InstallEntry::Record {
        dir: Some(dir.to_string()),
        release: Some("27.0".to_string()),
        otp_vsn: None,
    }
}

fn config_with_erlang(scope: ScopeConfig) -> Config {
    let mut c = default_config("/data".to_string());
    c.erlang = Some(scope);
    c
}

#[test]
fn missing_id_yields_no_install_for_id() {
    let scope = scope_with(vec![], Some("27.0"));
    let config = config_with_erlang(scope);
    let r = install_to_use("erl", &config, &None);
    assert_eq!(r, Err(Error::NoInstallForId));
}

#[test]
fn missing_id_from_override_yields_no_install_for_id() {
    let scope = scope_with(vec![("present".to_string(), record("/d/p"))], Some("present"));
    let config = config_with_erlang(scope);
    let local = Some(LocalOverride {
        entries: vec![("erlang".to_string(), "absent".to_string())],
    });
    let r = install_to_use("erl", &config, &local);
    assert_eq!(r, Err(Error::NoInstallForId));
}

#[test]
fn override_wins_over_default() {
    let scope = scope_with(
        vec![
            ("a".to_string(), record("/installs/a")),
            ("b".to_string(), record("/installs/b")),
        ],
        Some("a"),
    );
    let config = config_with_erlang(scope);
    let local = Some(LocalOverride {
        entries: vec![("erlang".to_string(), "b".to_string())],
    });
    let r = install_to_use("erl", &config, &local);
    assert_eq!(r, Ok("/installs/b".to_string()));
}

#[test]
fn default_used_without_override() {
    let scope = scope_with(
        vec![
            ("a".to_string(), record("/installs/a")),
            ("b".to_string(), record("/installs/b")),
        ],
        Some("a"),
    );
    let config = config_with_erlang(scope);
    let r = install_to_use("erl", &config, &None);
    assert_eq!(r, Ok("/installs/a".to_string()));
}

#[test]
fn unknown_command_refused() {
    let config = default_config("/data".to_string());
    let r = install_to_use("python", &config, &None);
    assert_eq!(r, Err(Error::UnknownCommand));
}

#[test]
fn no_default_without_any_selection() {
    let scope = scope_with(vec![("a".to_string(), record("/installs/a"))], None);
    let config = config_with_erlang(scope);
    let r = install_to_use("erl", &config, &None);
    assert_eq!(r, Err(Error::NoDefault));
}

#[test]
fn legacy_and_record_entries_resolve_alike() {
    let legacy = scope_with(
        vec![("v1".to_string(), InstallEntry::Dir("/same/dir".to_string()))],
        Some("v1"),
    );
    let structured = scope_with(vec![("v1".to_string(), record("/same/dir"))], Some("v1"));
    let r1 = lookup_install_by_id("v1", &legacy);
    let r2 = lookup_install_by_id("v1", &structured);
    assert_eq!(r1, Ok("/same/dir".to_string()));
    assert_eq!(r1, r2);
}

#[test]
fn malformed_entry_reported() {
    let scope = scope_with(vec![("bad".to_string(), InstallEntry::Malformed)], Some("bad"));
    let r = lookup_install_by_id("bad", &scope);
    assert_eq!(r, Err(Error::MalformedInstallEntry));
    let no_dir = scope_with(
        vec![(
            "r".to_string(),
            InstallEntry::Record { dir: None, release: Some("x".to_string()), otp_vsn: None },
        )],
        None,
    );
    assert_eq!(lookup_install_by_id("r", &no_dir), Err(Error::MalformedInstallEntry));
}

#[test]
fn add_install_then_set_default_round_trip() {
    let config = default_config("/data".to_string());
    let config = add_install(
        &Language::Gleam,
        &"1.5.0".to_string(),
        &"1.5.0".to_string(),
        "/data/beamup/gleam/1.5.0".to_string(),
        None,
        config,
    );
    let config = set_default(&Language::Gleam, &"1.5.0".to_string(), config)
        .expect("the id was just added");
    let r = install_to_use("gleam", &config, &None);
    assert_eq!(r, Ok("/data/beamup/gleam/1.5.0".to_string()));
}

#[test]
fn set_default_refuses_unknown_id() {
    let config = default_config("/data".to_string());
    let r = set_default(&Language::Erlang, &"nope".to_string(), config);
    assert!(matches!(r, Err(Error::NoInstallForId)));
}

#[test]
fn switch_pins_scope_locally() {
    let scope = scope_with(vec![("b".to_string(), record("/installs/b"))], None);
    let config = config_with_erlang(scope);
    let local = switch(&Language::Erlang, "b", &config, None).expect("id exists");
    assert_eq!(
        local.entries,
        vec![("erlang".to_string(), "b".to_string())]
    );
    let r = install_to_use("erl", &config, &Some(local));
    assert_eq!(r, Ok("/installs/b".to_string()));
}

#[test]
fn switch_refuses_missing_id() {
    let config = config_with_erlang(scope_with(vec![], None));
    let r = switch(&Language::Erlang, "nope", &config, None);
    assert!(matches!(r, Err(Error::NoInstallForId)));
}

#[test]
fn switch_keeps_other_scopes() {
    let scope = scope_with(vec![("b".to_string(), record("/installs/b"))], None);
    let config = config_with_erlang(scope);
    let prior = LocalOverride {
        entries: vec![("gleam".to_string(), "1.4".to_string())],
    };
    let local = switch(&Language::Erlang, "b", &config, Some(prior)).expect("id exists");
    assert!(local.entries.contains(&("gleam".to_string(), "1.4".to_string())));
    assert!(local.entries.contains(&("erlang".to_string(), "b".to_string())));
}

#[test]
fn component_resolution_uses_override_then_default() {
    let mut config = default_config("/data".to_string());
    config.rebar3 = Some(scope_with(
        vec![
            ("3.24.0".to_string(), record("/data/beamup/rebar3/3.24.0")),
            ("3.23.0".to_string(), record("/data/beamup/rebar3/3.23.0")),
        ],
        Some("3.24.0"),
    ));
    let r = component_install_to_use(&Kind::Rebar3, &config, &None);
    assert_eq!(r, Ok("/data/beamup/rebar3/3.24.0".to_string()));
    let local = Some(LocalOverride {
        entries: vec![("rebar3".to_string(), "3.23.0".to_string())],
    });
    let r = component_install_to_use(&Kind::Rebar3, &config, &local);
    assert_eq!(r, Ok("/data/beamup/rebar3/3.23.0".to_string()));
}

#[test]
fn build_options_default_to_empty() {
    let config = default_config("/data".to_string());
    assert_eq!(lookup_default_build_options(&Language::Erlang, &config), "".to_string());
    let mut config = config;
    config.erlang = Some(ScopeConfig {
        default: None,
        default_build_options: Some("--without-wx".to_string()),
        installs: vec![],
    });
    assert_eq!(
        lookup_default_build_options(&Language::Erlang, &config),
        "--without-wx".to_string()
    );
}

#[test]
fn add_install_records_release_and_default() {
    let config = default_config("/data".to_string());
    let config = add_install(
        &Language::Elixir,
        &"1.17".to_string(),
        &"v1.17.2".to_string(),
        "/data/beamup/elixir/1.17".to_string(),
        Some("27".to_string()),
        config,
    );
    let scope = config.elixir.as_ref().expect("scope was written");
    assert_eq!(scope.default, Some("1.17".to_string()));
    let entry = scope
        .installs
        .iter()
        .find(|(id, _)| id == "1.17")
        .map(|(_, e)| e)
        .expect("entry was written");
    match entry {
        InstallEntry::Record { dir, release, otp_vsn } => {
            assert_eq!(dir.as_deref(), Some("/data/beamup/elixir/1.17"));
            assert_eq!(release.as_deref(), Some("v1.17.2"));
            assert_eq!(otp_vsn.as_deref(), Some("27"));
        }
        _ => panic!("expected a structured record"),
    }
}
