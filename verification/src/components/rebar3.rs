use vstd::prelude::*;

use crate::components::{kind_bins_match, release_dir, Component, Kind};
use crate::error::Error;
use crate::github::GithubRepo;

verus! {

/// The shimmed command names that a rebar3 install provides.
pub open spec fn spec_bins() -> Seq<(Seq<char>, Kind)> {
    seq![("rebar3"@, Kind::Rebar3)]
}

/// Builds the command table for rebar3.
pub fn bins() -> (r: Vec<(String, Kind)>)
    ensures
        kind_bins_match(r@, spec_bins()),
{
    let mut v: Vec<(String, Kind)> = Vec::new();
    v.push((String::from_str("rebar3"), Kind::Rebar3));
    v
}

/// The asset-name pattern of a rebar3 release: the bare component name.
pub fn asset_prefix() -> (r: String)
    ensures
        r@ == "rebar3"@,
{
    String::from_str("rebar3")
}

/// The repository that publishes rebar3 releases.
pub fn get_github_repo() -> (r: GithubRepo)
    ensures
        r.org@ == "erlang"@,
        r.repo@ == "rebar3"@,
{
    GithubRepo { org: String::from_str("erlang"), repo: String::from_str("rebar3") }
}

/// Assembles the install plan for a rebar3 release.
pub fn new_component(release: &str, data_dir: &str) -> (r: Result<Component, Error>)
    ensures
        r matches Ok(c) && c.kind == Kind::Rebar3 && c.release_dir@ == data_dir@ + "/beamup/"@
            + "rebar3"@ + "/"@ + release@ && c.asset_prefix@ == "rebar3"@ && c.repo.org@
            == "erlang"@ && c.repo.repo@ == "rebar3"@ && kind_bins_match(c.bins@, spec_bins()),
{
    Ok(
        Component {
            kind: Kind::Rebar3,
            release_dir: release_dir(data_dir, "rebar3", release),
            asset_prefix: asset_prefix(),
            repo: get_github_repo(),
            bins: bins(),
        },
    )
}

} // verus!
