use vstd::prelude::*;

use crate::config::Config;
use crate::error::Error;
use crate::github::GithubRepo;
use crate::platform::{Arch, Os};
use crate::strutil::str_eq;

pub mod elixir;
pub mod erlang;
pub mod gleam;

verus! {

/// Which C library an Erlang binary release is dynamically linked against.
#[derive(Debug, Clone, Copy, PartialEq, Eq, Structural)]
pub enum Libc {
    Glibc,
    Musl,
}

/// A managed language toolchain: each has its own default selection and
/// table of named installs.
#[derive(Debug, Clone, Copy, PartialEq, Eq, Structural)]
pub enum Language {
    Elixir,
    Erlang,
    Gleam,
}

impl Language {
    /// The scope name under which this language is keyed in configuration
    /// files and release directories.
    pub open spec fn name_view(self) -> Seq<char> {
        match self {
            Language::Erlang => "erlang"@,
            Language::Gleam => "gleam"@,
            Language::Elixir => "elixir"@,
        }
    }

    /// Renders the scope name of this language.
    pub fn name(&self) -> (r: String)
        ensures
            r@ == self.name_view(),
    {
        match self {
            Language::Erlang => String::from_str("erlang"),
            Language::Gleam => String::from_str("gleam"),
            Language::Elixir => String::from_str("elixir"),
        }
    }
}

/// Every managed language, in the order they are listed to the user.
pub fn all_languages() -> (r: Vec<Language>)
    ensures
        r@ =~= seq![Language::Elixir, Language::Erlang, Language::Gleam],
{
    let mut v: Vec<Language> = Vec::new();
    v.push(Language::Elixir);
    v.push(Language::Erlang);
    v.push(Language::Gleam);
    v
}

/// Relates an executable table of command names to its specification-level
/// counterpart, entry by entry.
pub open spec fn bins_match(r: Seq<(String, Language)>, s: Seq<(Seq<char>, Language)>) -> bool {
    &&& r.len() == s.len()
    &&& forall|i: int|
        0 <= i < r.len() ==> (#[trigger] r[i]).0@ == s[i].0 && r[i].1 == s[i].1
}

/// The full static dispatch table: every shimmed command name with the
/// language that owns it.
pub open spec fn spec_bins() -> Seq<(Seq<char>, Language)> {
    elixir::spec_bins() + erlang::spec_bins() + gleam::spec_bins()
}

/// Builds the full dispatch table of shimmed command names.
pub fn bins(_config: &Config) -> (r: Vec<(String, Language)>)
    ensures
        bins_match(r@, spec_bins()),
{
    let mut v: Vec<(String, Language)> = elixir::bins();
    let mut erlang_bins: Vec<(String, Language)> = erlang::bins();
    let mut gleam_bins: Vec<(String, Language)> = gleam::bins();
    v.append(&mut erlang_bins);
    v.append(&mut gleam_bins);
    proof {
        assert forall|i: int| 0 <= i < v@.len() implies (#[trigger] v@[i]).0@ == spec_bins()[i].0
            && v@[i].1 == spec_bins()[i].1 by {
            let e = elixir::spec_bins().len() as int;
            let g = (elixir::spec_bins() + erlang::spec_bins()).len() as int;
            if i < e {
                assert(spec_bins()[i] == elixir::spec_bins()[i]);
            } else if i < g {
                assert(spec_bins()[i] == erlang::spec_bins()[i - e]);
            } else {
                assert(spec_bins()[i] == gleam::spec_bins()[i - g]);
            }
        }
    }
    v
}

/// First command-table entry whose name equals `bin`, if any.
pub open spec fn spec_bin_lookup(bins: Seq<(Seq<char>, Language)>, bin: Seq<char>) -> Option<
    Language,
>
    decreases bins.len(),
{
    if bins.len() == 0 {
        None
    } else if bins[0].0 == bin {
        Some(bins[0].1)
    } else {
        spec_bin_lookup(bins.drop_first(), bin)
    }
}

proof fn lemma_bin_lookup_skip(bins: Seq<(Seq<char>, Language)>, bin: Seq<char>, i: int)
    requires
        0 <= i <= bins.len(),
        forall|j: int| 0 <= j < i ==> (#[trigger] bins[j]).0 != bin,
    ensures
        spec_bin_lookup(bins, bin) == spec_bin_lookup(bins.skip(i), bin),
    decreases i,
{
    if i > 0 {
        assert(bins[0].0 != bin);
        assert(bins.drop_first().skip(i - 1) =~= bins.skip(i));
        lemma_bin_lookup_skip(bins.drop_first(), bin, i - 1);
    } else {
        assert(bins.skip(0) =~= bins);
    }
}

/// Maps a shimmed command name to the language that owns it, consulting the
/// static dispatch table; commands the table does not know are refused.
pub fn bin_to_language(bin: &str, config: &Config) -> (r: Result<Language, Error>)
    ensures
        match spec_bin_lookup(spec_bins(), bin@) {
            Some(l) => r == Ok::<Language, Error>(l),
            None => r == Err::<Language, Error>(Error::UnknownCommand),
        },
{
    let table: Vec<(String, Language)> = bins(config);
    let mut i: usize = 0;
    while i < table.len()
        invariant
            0 <= i <= table@.len(),
            bins_match(table@, spec_bins()),
            forall|j: int| 0 <= j < i ==> (#[trigger] spec_bins()[j]).0 != bin@,
        decreases table@.len() - i,
    {
        if str_eq(table[i].0.as_str(), bin) {
            proof {
                lemma_bin_lookup_skip(spec_bins(), bin@, i as int);
                assert(spec_bins().skip(i as int)[0] == spec_bins()[i as int]);
            }
            return Ok(table[i].1);
        }
        i = i + 1;
    }
    proof {
        lemma_bin_lookup_skip(spec_bins(), bin@, spec_bins().len() as int);
    }
    Err(Error::UnknownCommand)
}

/// The canonical release directory for one install of a scope:
/// `<data-root>/beamup/<scope>/<id>`.
pub fn release_dir(data_dir: &str, scope_name: &str, id: &str) -> (r: String)
    ensures
        r@ == data_dir@ + "/beamup/"@ + scope_name@ + "/"@ + id@,
{
    let s: String = data_dir.to_owned();
    let s: String = s.concat("/beamup/");
    let s: String = s.concat(scope_name);
    let s: String = s.concat("/");
    s.concat(id)
}

/// The repository that hosts prebuilt binary releases of `language`; for
/// Erlang it depends on the operating system.
pub fn binary_repo(language: &Language, os: Os) -> (r: GithubRepo)
    ensures
        r.org@ == spec_binary_repo(*language, os).0,
        r.repo@ == spec_binary_repo(*language, os).1,
{
    match language {
        Language::Elixir => GithubRepo {
            org: String::from_str("elixir-lang"),
            repo: String::from_str("elixir"),
        },
        Language::Erlang => match os {
            Os::Windows => GithubRepo {
                org: String::from_str("erlang"),
                repo: String::from_str("otp"),
            },
            Os::Macos => GithubRepo {
                org: String::from_str("erlef"),
                repo: String::from_str("otp_builds"),
            },
            _ => GithubRepo {
                org: String::from_str("gleam-community"),
                repo: String::from_str("erlang-linux-builds"),
            },
        },
        Language::Gleam => GithubRepo {
            org: String::from_str("gleam-lang"),
            repo: String::from_str("gleam"),
        },
    }
}

/// Owner and project of the binary-release repository for each language.
pub open spec fn spec_binary_repo(language: Language, os: Os) -> (Seq<char>, Seq<char>) {
    match language {
        Language::Elixir => ("elixir-lang"@, "elixir"@),
        Language::Erlang => match os {
            Os::Windows => ("erlang"@, "otp"@),
            Os::Macos => ("erlef"@, "otp_builds"@),
            _ => ("gleam-community"@, "erlang-linux-builds"@),
        },
        Language::Gleam => ("gleam-lang"@, "gleam"@),
    }
}

/// The repository that hosts the language's sources, used by builds from
/// source and by release listings.
pub fn source_repo(language: &Language) -> (r: GithubRepo)
    ensures
        r.org@ == spec_source_repo(*language).0,
        r.repo@ == spec_source_repo(*language).1,
{
    match language {
        Language::Elixir => GithubRepo {
            org: String::from_str("elixir-lang"),
            repo: String::from_str("elixir"),
        },
        Language::Erlang => GithubRepo {
            org: String::from_str("erlang"),
            repo: String::from_str("otp"),
        },
        Language::Gleam => GithubRepo {
            org: String::from_str("gleam-lang"),
            repo: String::from_str("gleam"),
        },
    }
}

/// Owner and project of the source repository for each language.
pub open spec fn spec_source_repo(language: Language) -> (Seq<char>, Seq<char>) {
    match language {
        Language::Elixir => ("elixir-lang"@, "elixir"@),
        Language::Erlang => ("erlang"@, "otp"@),
        Language::Gleam => ("gleam-lang"@, "gleam"@),
    }
}

/// The asset-name pattern to look for when installing a binary release of
/// `language` on the given target.
pub fn asset_prefix(
    language: &Language,
    arch: Arch,
    os: Os,
    libc: &Option<Libc>,
    otp_major_vsn: &str,
) -> (r: Result<String, Error>)
    ensures
        match *language {
            Language::Elixir => r matches Ok(s) && s@ == elixir::spec_asset_prefix(otp_major_vsn@),
            Language::Erlang => match erlang::spec_asset_prefix(arch, os, *libc) {
                Some(p) => r matches Ok(s) && s@ == p,
                None => r == Err::<String, Error>(Error::UnsupportedPlatform),
            },
            Language::Gleam => match gleam::spec_asset_prefix(arch, os) {
                Some(p) => r matches Ok(s) && s@ == p,
                None => r == Err::<String, Error>(Error::UnsupportedPlatform),
            },
        },
{
    match language {
        Language::Elixir => Ok(elixir::asset_prefix(otp_major_vsn)),
        Language::Erlang => erlang::asset_prefix(arch, os, libc),
        Language::Gleam => gleam::asset_prefix(arch, os),
    }
}

} // verus!
