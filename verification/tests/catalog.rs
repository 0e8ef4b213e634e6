use beamup::components::{self, Component, Kind};
use beamup::config::default_config;
use beamup::error::Error;
use beamup::git::GitRef;
use beamup::github::{find_matching_asset, tarball_file_name, GithubRepo};
use beamup::languages::{
    self, asset_prefix, bin_to_language, binary_repo, release_dir, source_repo, Language, Libc,
};
use beamup::platform::{
    check_if_component_install_supported, check_if_install_supported, Arch, Os,
};

#[test]
fn language_command_table_is_complete() {
    let config = default_config("/data".to_string());
    let bins = languages::bins(&config);
    let names: Vec<&str> = bins.iter().map(|(n, _)| n.as_str()).collect();
    assert_eq!(
        names,
        vec![
            "elixir", "elixirc", "iex", "mix", "ct_run", "dialyzer", "epmd", "erl", "erlc",
            "erl_call", "escript", "run_erl", "run_test", "to_erl", "typer", "gleam",
        ]
    );
    assert!(bins.iter().take(4).all(|(_, l)| *l == Language::Elixir));
    assert!(bins.iter().skip(4).take(11).all(|(_, l)| *l == Language::Erlang));
    assert_eq!(bins[15].1, Language::Gleam);
}

#[test]
fn component_command_table_is_complete() {
    let bins = components::bins();
    assert_eq!(bins.len(), 2);
    assert_eq!(bins[0].0, "elp");
    assert_eq!(bins[0].1, Kind::Elp);
    assert_eq!(bins[1].0, "rebar3");
    assert_eq!(bins[1].1, Kind::Rebar3);
}

#[test]
fn commands_map_to_their_language() {
    let config = default_config("/data".to_string());
    assert_eq!(bin_to_language("iex", &config), Ok(Language::Elixir));
    assert_eq!(bin_to_language("erl", &config), Ok(Language::Erlang));
    assert_eq!(bin_to_language("gleam", &config), Ok(Language::Gleam));
    assert_eq!(bin_to_language("cargo", &config), Err(Error::UnknownCommand));
}

#[test]
fn release_directories_are_keyed_by_scope_and_id() {
    assert_eq!(
        release_dir("/home/u/.local/share", "erlang", "27.1"),
        "/home/u/.local/share/beamup/erlang/27.1".to_string()
    );
    assert_eq!(
        components::release_dir("/d", "rebar3", "3.24.0"),
        "/d/beamup/rebar3/3.24.0".to_string()
    );
}

#[test]
fn repositories_per_language() {
    let r = source_repo(&Language::Erlang);
    assert_eq!((r.org.as_str(), r.repo.as_str()), ("erlang", "otp"));
    let r = binary_repo(&Language::Erlang, Os::Linux);
    assert_eq!(
        (r.org.as_str(), r.repo.as_str()),
        ("gleam-community", "erlang-linux-builds")
    );
    let r = binary_repo(&Language::Erlang, Os::Macos);
    assert_eq!((r.org.as_str(), r.repo.as_str()), ("erlef", "otp_builds"));
    let r = binary_repo(&Language::Gleam, Os::Linux);
    assert_eq!((r.org.as_str(), r.repo.as_str()), ("gleam-lang", "gleam"));
}

#[test]
fn erlang_asset_patterns_follow_target_and_libc() {
    let p = asset_prefix(&Language::Erlang, Arch::X86_64, Os::Linux, &None, "").unwrap();
    assert_eq!(p, "erlang-.*-x64.tar.gz");
    let p = asset_prefix(&Language::Erlang, Arch::Aarch64, Os::Linux, &Some(Libc::Musl), "")
        .unwrap();
    assert_eq!(p, "erlang-.*-arm64-musl.tar.gz");
    let p = asset_prefix(&Language::Erlang, Arch::X86, Os::Windows, &None, "").unwrap();
    assert_eq!(p, "otp_win32_.*.exe");
    let r = asset_prefix(&Language::Erlang, Arch::Other, Os::Other, &None, "");
    assert_eq!(r, Err(Error::UnsupportedPlatform));
}

#[test]
fn elixir_asset_pattern_follows_active_erlang() {
    let p = asset_prefix(&Language::Elixir, Arch::X86_64, Os::Linux, &None, "27").unwrap();
    assert_eq!(p, "elixir-otp-27.zip");
}

#[test]
fn gleam_asset_patterns_follow_target() {
    let p = asset_prefix(&Language::Gleam, Arch::Aarch64, Os::Macos, &None, "").unwrap();
    assert_eq!(p, "gleam-.*-aarch64-apple-darwin.tar.gz");
    let r = asset_prefix(&Language::Gleam, Arch::X86, Os::Windows, &None, "");
    assert_eq!(r, Err(Error::UnsupportedPlatform));
}

#[test]
fn component_plans_carry_their_coordinates() {
    let c: Component =
        Component::new(Kind::Elp, "2025-01-01", "/d", "27", Arch::X86_64, Os::Linux).unwrap();
    assert_eq!(c.kind, Kind::Elp);
    assert_eq!(c.release_dir, "/d/beamup/elp/2025-01-01");
    assert_eq!(c.asset_prefix, "elp-linux-x86_64-unknown-linux-gnu-otp-27");
    assert_eq!((c.repo.org.as_str(), c.repo.repo.as_str()), ("WhatsApp", "erlang-language-platform"));
    assert_eq!(c.bins.len(), 1);

    let c = Component::new(Kind::Rebar3, "3.24.0", "/d", "", Arch::Other, Os::Other).unwrap();
    assert_eq!(c.kind, Kind::Rebar3);
    assert_eq!(c.release_dir, "/d/beamup/rebar3/3.24.0");
    assert_eq!(c.asset_prefix, "rebar3");
    assert_eq!((c.repo.org.as_str(), c.repo.repo.as_str()), ("erlang", "rebar3"));
}

#[test]
fn install_support_by_platform() {
    assert_eq!(
        check_if_install_supported(&Language::Erlang, Arch::X86_64, Os::Linux, true),
        Ok(())
    );
    assert_eq!(
        check_if_install_supported(&Language::Erlang, Arch::X86, Os::Linux, true),
        Err(Error::UnsupportedPlatform)
    );
    assert_eq!(
        check_if_install_supported(&Language::Elixir, Arch::X86, Os::Other, false),
        Err(Error::NoDefault)
    );
    assert_eq!(
        check_if_install_supported(&Language::Gleam, Arch::Other, Os::Other, false),
        Ok(())
    );
    assert_eq!(check_if_component_install_supported(Os::Windows), Err(Error::UnsupportedPlatform));
    assert_eq!(check_if_component_install_supported(Os::Linux), Ok(()));
}

#[test]
fn asset_selection_takes_the_first_match() {
    let names = vec![
        "erlang-27.1-arm64.tar.gz".to_string(),
        "erlang-27.1-x64.tar.gz".to_string(),
        "erlang-27.1-x64-musl.tar.gz".to_string(),
    ];
    assert_eq!(find_matching_asset("erlang-.*-x64.tar.gz", &names), Some(1));
    assert_eq!(find_matching_asset("erlang-.*-riscv.tar.gz", &names), None);
    assert_eq!(find_matching_asset("(unclosed", &names), None);
    assert_eq!(find_matching_asset("", &names), Some(0));
}

#[test]
fn tarball_name_follows_repository() {
    let repo = GithubRepo { org: "erlang".to_string(), repo: "otp".to_string() };
    assert_eq!(tarball_file_name(&repo), "otp.tar.gz".to_string());
}

#[test]
fn git_refs_render_their_name() {
    assert_eq!(GitRef::Branch("master".to_string()).to_text(), "master");
    assert_eq!(GitRef::Release("OTP-27.1".to_string()).to_text(), "OTP-27.1");
}

#[test]
fn scope_names() {
    assert_eq!(Language::Erlang.name(), "erlang");
    assert_eq!(Language::Elixir.name(), "elixir");
    assert_eq!(Language::Gleam.name(), "gleam");
    assert_eq!(Kind::Elp.name(), "elp");
    assert_eq!(Kind::Rebar3.name(), "rebar3");
}

#[test]
fn errors_describe_themselves() {
    assert!(!Error::NoDefault.message().is_empty());
    assert!(Error::DirectoryAlreadyExists("/d".to_string()).message().contains("force"));
}
