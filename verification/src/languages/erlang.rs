use vstd::prelude::*;

use crate::error::Error;
use crate::languages::{bins_match, Language, Libc};
use crate::platform::{Arch, Os};

verus! {

/// The shimmed command names that an Erlang/OTP install provides.
pub open spec fn spec_bins() -> Seq<(Seq<char>, Language)> {
    seq![
        ("ct_run"@, Language::Erlang),
        ("dialyzer"@, Language::Erlang),
        ("epmd"@, Language::Erlang),
        ("erl"@, Language::Erlang),
        ("erlc"@, Language::Erlang),
        ("erl_call"@, Language::Erlang),
        ("escript"@, Language::Erlang),
        ("run_erl"@, Language::Erlang),
        ("run_test"@, Language::Erlang),
        ("to_erl"@, Language::Erlang),
        ("typer"@, Language::Erlang),
    ]
}

/// Builds the command table for Erlang/OTP.
pub fn bins() -> (r: Vec<(String, Language)>)
    ensures
        bins_match(r@, spec_bins()),
{
    let mut v: Vec<(String, Language)> = Vec::new();
    v.push((String::from_str("ct_run"), Language::Erlang));
    v.push((String::from_str("dialyzer"), Language::Erlang));
    v.push((String::from_str("epmd"), Language::Erlang));
    v.push((String::from_str("erl"), Language::Erlang));
    v.push((String::from_str("erlc"), Language::Erlang));
    v.push((String::from_str("erl_call"), Language::Erlang));
    v.push((String::from_str("escript"), Language::Erlang));
    v.push((String::from_str("run_erl"), Language::Erlang));
    v.push((String::from_str("run_test"), Language::Erlang));
    v.push((String::from_str("to_erl"), Language::Erlang));
    v.push((String::from_str("typer"), Language::Erlang));
    v
}

/// The suffix that selects the C library of a Linux binary release.
pub open spec fn spec_libc_suffix(libc: Option<Libc>) -> Seq<char> {
    match libc {
        None => ""@,
        Some(Libc::Glibc) => "-glibc"@,
        Some(Libc::Musl) => "-musl"@,
    }
}

/// The asset-name pattern of an Erlang/OTP binary release for the given
/// target, or nothing when no release is published for it.
pub open spec fn spec_asset_prefix(arch: Arch, os: Os, libc: Option<Libc>) -> Option<Seq<char>> {
    match (arch, os) {
        (Arch::X86, Os::Windows) => Some("otp_win32_.*.exe"@),
        (Arch::X86_64, Os::Windows) => Some("otp_win64_.*.exe"@),
        (Arch::X86_64, Os::Macos) => Some("otp-x86_64-apple-darwin.tar.gz"@),
        (Arch::Aarch64, Os::Macos) => Some("otp-aarch64-apple-darwin.tar.gz"@),
        (Arch::Aarch64, Os::Linux) => Some(
            "erlang-.*-arm64"@ + spec_libc_suffix(libc) + ".tar.gz"@,
        ),
        (Arch::X86_64, Os::Linux) => Some("erlang-.*-x64"@ + spec_libc_suffix(libc) + ".tar.gz"@),
        _ => None,
    }
}

/// Renders the libc suffix of a Linux asset name.
fn libc_suffix(libc: &Option<Libc>) -> (r: &'static str)
    ensures
        r@ == spec_libc_suffix(*libc),
{
    match libc {
        None => "",
        Some(Libc::Glibc) => "-glibc",
        Some(Libc::Musl) => "-musl",
    }
}

/// Renders the asset-name pattern for an Erlang/OTP binary release.
pub fn asset_prefix(arch: Arch, os: Os, libc: &Option<Libc>) -> (r: Result<String, Error>)
    ensures
        match spec_asset_prefix(arch, os, *libc) {
            Some(p) => r matches Ok(s) && s@ == p,
            None => r == Err::<String, Error>(Error::UnsupportedPlatform),
        },
{
    let suffix: &str = libc_suffix(libc);
    match (arch, os) {
        (Arch::X86, Os::Windows) => Ok(String::from_str("otp_win32_.*.exe")),
        (Arch::X86_64, Os::Windows) => Ok(String::from_str("otp_win64_.*.exe")),
        (Arch::X86_64, Os::Macos) => Ok(String::from_str("otp-x86_64-apple-darwin.tar.gz")),
        (Arch::Aarch64, Os::Macos) => Ok(String::from_str("otp-aarch64-apple-darwin.tar.gz")),
        (Arch::Aarch64, Os::Linux) => Ok(
            String::from_str("erlang-.*-arm64").concat(suffix).concat(".tar.gz"),
        ),
        (Arch::X86_64, Os::Linux) => Ok(
            String::from_str("erlang-.*-x64").concat(suffix).concat(".tar.gz"),
        ),
        _ => Err(Error::UnsupportedPlatform),
    }
}

} // verus!
