use vstd::prelude::*;

use crate::components::{kind_bins_match, release_dir, Component, Kind};
use crate::error::Error;
use crate::github::GithubRepo;
use crate::platform::{Arch, Os};

verus! {

/// The shimmed command names that an ELP install provides.
pub open spec fn spec_bins() -> Seq<(Seq<char>, Kind)> {
    seq![("elp"@, Kind::Elp)]
}

/// Builds the command table for ELP.
pub fn bins() -> (r: Vec<(String, Kind)>)
    ensures
        kind_bins_match(r@, spec_bins()),
{
    let mut v: Vec<(String, Kind)> = Vec::new();
    v.push((String::from_str("elp"), Kind::Elp));
    v
}

/// The asset-name pattern of an ELP release for the given target and major
/// Erlang/OTP version; targets without a published build get the empty
/// pattern, which matches any asset.
pub open spec fn spec_asset_prefix(otp_major_vsn: Seq<char>, arch: Arch, os: Os) -> Seq<char> {
    match (arch, os) {
        (Arch::X86_64, Os::Linux) => "elp-linux-x86_64-unknown-linux-gnu-otp-"@ + otp_major_vsn,
        (Arch::Aarch64, Os::Linux) => "elp-linux-aarch64-unknown-linux-gnu-otp-"@ + otp_major_vsn,
        (Arch::X86_64, Os::Macos) => "elp-macos-x86_64-apple-darwin-otp-"@ + otp_major_vsn,
        (Arch::Aarch64, Os::Macos) => "elp-macos-aarch64-apple-darwin-otp-"@ + otp_major_vsn,
        _ => ""@,
    }
}

/// Renders the asset-name pattern for an ELP release.
pub fn asset_prefix(otp_major_vsn: &str, arch: Arch, os: Os) -> (r: String)
    ensures
        r@ == spec_asset_prefix(otp_major_vsn@, arch, os),
{
    match (arch, os) {
        (Arch::X86_64, Os::Linux) => String::from_str(
            "elp-linux-x86_64-unknown-linux-gnu-otp-",
        ).concat(otp_major_vsn),
        (Arch::Aarch64, Os::Linux) => String::from_str(
            "elp-linux-aarch64-unknown-linux-gnu-otp-",
        ).concat(otp_major_vsn),
        (Arch::X86_64, Os::Macos) => String::from_str(
            "elp-macos-x86_64-apple-darwin-otp-",
        ).concat(otp_major_vsn),
        (Arch::Aarch64, Os::Macos) => String::from_str(
            "elp-macos-aarch64-apple-darwin-otp-",
        ).concat(otp_major_vsn),
        _ => String::from_str(""),
    }
}

/// The repository that publishes ELP releases.
pub fn get_github_repo() -> (r: GithubRepo)
    ensures
        r.org@ == "WhatsApp"@,
        r.repo@ == "erlang-language-platform"@,
{
    GithubRepo {
        org: String::from_str("WhatsApp"),
        repo: String::from_str("erlang-language-platform"),
    }
}

/// Assembles the install plan for an ELP release.
pub fn new_component(
    release: &str,
    data_dir: &str,
    otp_major_vsn: &str,
    arch: Arch,
    os: Os,
) -> (r: Result<Component, Error>)
    ensures
        r matches Ok(c) && c.kind == Kind::Elp && c.release_dir@ == data_dir@ + "/beamup/"@
            + "elp"@ + "/"@ + release@ && c.asset_prefix@ == spec_asset_prefix(
            otp_major_vsn@,
            arch,
            os,
        ) && c.repo.org@ == "WhatsApp"@ && c.repo.repo@ == "erlang-language-platform"@
            && kind_bins_match(c.bins@, spec_bins()),
{
    Ok(
        Component {
            kind: Kind::Elp,
            release_dir: release_dir(data_dir, "elp", release),
            asset_prefix: asset_prefix(otp_major_vsn, arch, os),
            repo: get_github_repo(),
            bins: bins(),
        },
    )
}

} // verus!
