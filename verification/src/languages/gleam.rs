use vstd::prelude::*;

use crate::error::Error;
use crate::languages::{bins_match, Language};
use crate::platform::{Arch, Os};

verus! {

/// The shimmed command names that a Gleam install provides.
pub open spec fn spec_bins() -> Seq<(Seq<char>, Language)> {
    seq![("gleam"@, Language::Gleam)]
}

/// Builds the command table for Gleam.
pub fn bins() -> (r: Vec<(String, Language)>)
    ensures
        bins_match(r@, spec_bins()),
{
    let mut v: Vec<(String, Language)> = Vec::new();
    v.push((String::from_str("gleam"), Language::Gleam));
    v
}

/// The asset-name pattern of a Gleam binary release for the given target,
/// or nothing when no release is published for it.
pub open spec fn spec_asset_prefix(arch: Arch, os: Os) -> Option<Seq<char>> {
    match (arch, os) {
        (Arch::X86_64, Os::Linux) => Some("gleam-.*-x86_64-unknown-linux-musl.tar.gz"@),
        (Arch::Aarch64, Os::Linux) => Some("gleam-.*-aarch64-unknown-linux-musl.tar.gz"@),
        (Arch::X86_64, Os::Macos) => Some("gleam-.*-x86_64-apple-darwin.tar.gz"@),
        (Arch::Aarch64, Os::Macos) => Some("gleam-.*-aarch64-apple-darwin.tar.gz"@),
        (Arch::X86_64, Os::Windows) => Some("gleam-.*-x86_64-pc-windows-msvc.zip"@),
        _ => None,
    }
}

/// Renders the asset-name pattern for a Gleam binary release.
pub fn asset_prefix(arch: Arch, os: Os) -> (r: Result<String, Error>)
    ensures
        match spec_asset_prefix(arch, os) {
            Some(p) => r matches Ok(s) && s@ == p,
            None => r == Err::<String, Error>(Error::UnsupportedPlatform),
        },
{
    match (arch, os) {
        (Arch::X86_64, Os::Linux) => Ok(String::from_str("gleam-.*-x86_64-unknown-linux-musl.tar.gz")),
        (Arch::Aarch64, Os::Linux) => Ok(String::from_str("gleam-.*-aarch64-unknown-linux-musl.tar.gz")),
        (Arch::X86_64, Os::Macos) => Ok(String::from_str("gleam-.*-x86_64-apple-darwin.tar.gz")),
        (Arch::Aarch64, Os::Macos) => Ok(String::from_str("gleam-.*-aarch64-apple-darwin.tar.gz")),
        (Arch::X86_64, Os::Windows) => Ok(String::from_str("gleam-.*-x86_64-pc-windows-msvc.zip")),
        _ => Err(Error::UnsupportedPlatform),
    }
}

} // verus!
