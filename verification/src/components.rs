use vstd::prelude::*;

use crate::error::Error;
use crate::github::GithubRepo;
use crate::platform::{Arch, Os};

pub mod elp;
pub mod rebar3;

verus! {

/// An auxiliary developer component managed beside the language toolchains.
#[derive(Debug, Clone, Copy, PartialEq, Eq, Structural)]
pub enum Kind {
    Elp,
    Rebar3,
}

impl Kind {
    /// The scope name under which this component is keyed in configuration
    /// files and release directories.
    pub open spec fn name_view(self) -> Seq<char> {
        match self {
            Kind::Elp => "elp"@,
            Kind::Rebar3 => "rebar3"@,
        }
    }

    /// Renders the scope name of this component.
    pub fn name(&self) -> (r: String)
        ensures
            r@ == self.name_view(),
    {
        match self {
            Kind::Elp => String::from_str("elp"),
            Kind::Rebar3 => String::from_str("rebar3"),
        }
    }
}

/// Every managed component, in the order they are listed to the user.
pub fn all_kinds() -> (r: Vec<Kind>)
    ensures
        r@ =~= seq![Kind::Elp, Kind::Rebar3],
{
    let mut v: Vec<Kind> = Vec::new();
    v.push(Kind::Elp);
    v.push(Kind::Rebar3);
    v
}

/// Relates an executable table of component command names to its
/// specification-level counterpart, entry by entry.
pub open spec fn kind_bins_match(r: Seq<(String, Kind)>, s: Seq<(Seq<char>, Kind)>) -> bool {
    &&& r.len() == s.len()
    &&& forall|i: int|
        0 <= i < r.len() ==> (#[trigger] r[i]).0@ == s[i].0 && r[i].1 == s[i].1
}

/// The component dispatch table: every shimmed component command name with
/// the component that owns it.
pub open spec fn spec_bins() -> Seq<(Seq<char>, Kind)> {
    elp::spec_bins() + rebar3::spec_bins()
}

/// Builds the component dispatch table.
pub fn bins() -> (r: Vec<(String, Kind)>)
    ensures
        kind_bins_match(r@, spec_bins()),
{
    let mut v: Vec<(String, Kind)> = elp::bins();
    let mut rebar3_bins: Vec<(String, Kind)> = rebar3::bins();
    v.append(&mut rebar3_bins);
    proof {
        assert forall|i: int| 0 <= i < v@.len() implies (#[trigger] v@[i]).0@ == spec_bins()[i].0
            && v@[i].1 == spec_bins()[i].1 by {
            let e = elp::spec_bins().len() as int;
            if i < e {
                assert(spec_bins()[i] == elp::spec_bins()[i]);
            } else {
                assert(spec_bins()[i] == rebar3::spec_bins()[i - e]);
            }
        }
    }
    v
}

/// Everything needed to install one component: where its release directory
/// lives, which repository and asset to fetch, and which commands it shims.
pub struct Component {
    pub kind: Kind,
    pub release_dir: String,
    pub asset_prefix: String,
    pub repo: GithubRepo,
    pub bins: Vec<(String, Kind)>,
}

/// The canonical release directory for one install of a component scope:
/// `<data-root>/beamup/<scope>/<id>`.
pub fn release_dir(data_dir: &str, kind_str: &str, id: &str) -> (r: String)
    ensures
        r@ == data_dir@ + "/beamup/"@ + kind_str@ + "/"@ + id@,
{
    let s: String = data_dir.to_owned();
    let s: String = s.concat("/beamup/");
    let s: String = s.concat(kind_str);
    let s: String = s.concat("/");
    s.concat(id)
}

impl Component {
    /// Assembles the install plan for a component release on the given
    /// target. The caller supplies the data root and, for components whose
    /// assets are keyed by it, the major version of the active Erlang.
    pub fn new(
        kind: Kind,
        release: &str,
        data_dir: &str,
        otp_major_vsn: &str,
        arch: Arch,
        os: Os,
    ) -> (r: Result<Component, Error>)
        ensures
            r matches Ok(c) && c.kind == kind && c.release_dir@ == data_dir@ + "/beamup/"@
                + kind.name_view() + "/"@ + release@ && kind_bins_match(
                c.bins@,
                match kind {
                    Kind::Elp => elp::spec_bins(),
                    Kind::Rebar3 => rebar3::spec_bins(),
                },
            ) && c.asset_prefix@ == (match kind {
                Kind::Elp => elp::spec_asset_prefix(otp_major_vsn@, arch, os),
                Kind::Rebar3 => "rebar3"@,
            }) && (c.repo.org@, c.repo.repo@) == (match kind {
                Kind::Elp => ("WhatsApp"@, "erlang-language-platform"@),
                Kind::Rebar3 => ("erlang"@, "rebar3"@),
            }),
    {
        match kind {
            Kind::Elp => elp::new_component(release, data_dir, otp_major_vsn, arch, os),
            Kind::Rebar3 => rebar3::new_component(release, data_dir),
        }
    }
}

} // verus!
