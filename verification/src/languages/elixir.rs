use vstd::prelude::*;

use crate::languages::{bins_match, Language};

verus! {

/// The shimmed command names that an Elixir install provides.
pub open spec fn spec_bins() -> Seq<(Seq<char>, Language)> {
    seq![
        ("elixir"@, Language::Elixir),
        ("elixirc"@, Language::Elixir),
        ("iex"@, Language::Elixir),
        ("mix"@, Language::Elixir),
    ]
}

/// Builds the command table for Elixir.
pub fn bins() -> (r: Vec<(String, Language)>)
    ensures
        bins_match(r@, spec_bins()),
{
    let mut v: Vec<(String, Language)> = Vec::new();
    v.push((String::from_str("elixir"), Language::Elixir));
    v.push((String::from_str("elixirc"), Language::Elixir));
    v.push((String::from_str("iex"), Language::Elixir));
    v.push((String::from_str("mix"), Language::Elixir));
    v
}

/// The asset name of an Elixir binary release built against the given
/// major Erlang/OTP version.
pub open spec fn spec_asset_prefix(otp_major_vsn: Seq<char>) -> Seq<char> {
    "elixir-otp-"@ + otp_major_vsn + ".zip"@
}

/// Renders the asset-name pattern for an Elixir binary release.
pub fn asset_prefix(otp_major_vsn: &str) -> (r: String)
    ensures
        r@ == spec_asset_prefix(otp_major_vsn@),
{
    let s: String = String::from_str("elixir-otp-");
    let s: String = s.concat(otp_major_vsn);
    s.concat(".zip")
}

} // verus!
