use vstd::prelude::*;

use crate::components::Kind;
use crate::error::Error;
use crate::languages::{spec_bin_lookup, spec_bins, Language};
use crate::table::{assoc_get, spec_assoc, upsert};

verus! {

/// One named install of a scope. Two schema generations coexist in
/// persisted configuration: legacy entries are a bare directory string,
/// current entries are a structured record; anything else is malformed.
pub enum InstallEntry {
    /// Legacy schema: the entry is only the install directory.
    Dir(String),
    /// Current schema: a record whose `dir` field, when present and textual,
    /// is the install directory.
    Record { dir: Option<String>, release: Option<String>, otp_vsn: Option<String> },
    /// A persisted value of any other shape.
    Malformed,
}

impl InstallEntry {
    /// The directory an entry resolves to, when it has one: both schema
    /// generations normalize through this single function.
    pub open spec fn dir_view(self) -> Option<Seq<char>> {
        match self {
            InstallEntry::Dir(d) => Some(d@),
            InstallEntry::Record { dir: Some(d), .. } => Some(d@),
            _ => None,
        }
    }
}

/// An exact copy of an optional string.
pub fn clone_opt_string(s: &Option<String>) -> (r: Option<String>)
    ensures
        r == *s,
{
    match s {
        None => None,
        Some(x) => Some(x.clone()),
    }
}

impl Clone for InstallEntry {
    /// Copies preserve the entry exactly.
    fn clone(&self) -> (r: Self)
        ensures
            r == *self,
    {
        match self {
            InstallEntry::Dir(d) => InstallEntry::Dir(d.clone()),
            InstallEntry::Record { dir, release, otp_vsn } => InstallEntry::Record {
                dir: clone_opt_string(dir),
                release: clone_opt_string(release),
                otp_vsn: clone_opt_string(otp_vsn),
            },
            InstallEntry::Malformed => InstallEntry::Malformed,
        }
    }
}

/// Per-scope configuration: an optional default id, optional build options
/// used when building from source, and the table of named installs.
pub struct ScopeConfig {
    pub default: Option<String>,
    pub default_build_options: Option<String>,
    pub installs: Vec<(String, InstallEntry)>,
}

impl ScopeConfig {
    /// An empty scope: no default, no options, no installs.
    pub fn empty() -> (r: ScopeConfig)
        ensures
            r.default is None,
            r.default_build_options is None,
            r.installs@.len() == 0,
    {
        ScopeConfig { default: None, default_build_options: None, installs: Vec::new() }
    }
}

impl Clone for ScopeConfig {
    /// Copies preserve every field exactly.
    fn clone(&self) -> (r: Self)
        ensures
            r.default == self.default,
            r.default_build_options == self.default_build_options,
            r.installs@ == self.installs@,
    {
        let mut installs: Vec<(String, InstallEntry)> = Vec::new();
        let mut i: usize = 0;
        while i < self.installs.len()
            invariant
                0 <= i <= self.installs@.len(),
                installs@.len() == i,
                forall|j: int| 0 <= j < i ==> installs@[j] == self.installs@[j],
            decreases self.installs@.len() - i,
        {
            let name: String = self.installs[i].0.clone();
            let entry: InstallEntry = self.installs[i].1.clone();
            installs.push((name, entry));
            i = i + 1;
        }
        proof {
            assert(installs@ =~= self.installs@);
        }
        ScopeConfig {
            default: clone_opt_string(&self.default),
            default_build_options: clone_opt_string(&self.default_build_options),
            installs,
        }
    }
}

/// Per-language scope configuration; languages and components share one
/// shape.
pub type LanguageConfig = ScopeConfig;

/// Per-component scope configuration; languages and components share one
/// shape.
pub type ComponentConfig = ScopeConfig;

/// The top-level persisted document: one optional scope configuration per
/// managed language or component, plus the base install root.
pub struct Config {
    pub install_dir: String,
    pub erlang: Option<ScopeConfig>,
    pub gleam: Option<ScopeConfig>,
    pub elixir: Option<ScopeConfig>,
    pub elp: Option<ScopeConfig>,
    pub rebar3: Option<ScopeConfig>,
}

/// The ephemeral per-directory override document: scope name to install id.
/// It expresses project-level pinning without touching global state.
pub struct LocalOverride {
    pub entries: Vec<(String, String)>,
}

/// What looking an id up in a scope's installs table yields after
/// normalizing the two schema generations: the install directory, or the
/// error that resolution reports.
pub open spec fn spec_lookup_dir(installs: Seq<(String, InstallEntry)>, id: Seq<char>) -> Result<
    Seq<char>,
    Error,
> {
    match spec_assoc(installs, id) {
        None => Err(Error::NoInstallForId),
        Some(e) => match e.dir_view() {
            Some(d) => Ok(d),
            None => Err(Error::MalformedInstallEntry),
        },
    }
}

/// Looks an id up in a scope's installs table and normalizes the entry to
/// its directory. Absent ids and entries without a usable directory are
/// reported exactly.
pub fn lookup_install_by_id(id: &str, scope: &ScopeConfig) -> (r: Result<String, Error>)
    ensures
        match spec_lookup_dir(scope.installs@, id@) {
            Ok(d) => r matches Ok(s) && s@ == d,
            Err(e) => r == Err::<String, Error>(e),
        },
{
    match assoc_get(&scope.installs, id) {
        None => Err(Error::NoInstallForId),
        Some(entry) => match entry {
            InstallEntry::Dir(d) => Ok(d.clone()),
            InstallEntry::Record { dir, .. } => match dir {
                Some(d) => Ok(d.clone()),
                None => Err(Error::MalformedInstallEntry),
            },
            InstallEntry::Malformed => Err(Error::MalformedInstallEntry),
        },
    }
}

/// The scope stored in the document for a language, if any.
pub open spec fn spec_language_scope(config: Config, language: Language) -> Option<ScopeConfig> {
    match language {
        Language::Gleam => config.gleam,
        Language::Erlang => config.erlang,
        Language::Elixir => config.elixir,
    }
}

/// The scope stored in the document for a component, if any.
pub open spec fn spec_component_scope(config: Config, kind: Kind) -> Option<ScopeConfig> {
    match kind {
        Kind::Elp => config.elp,
        Kind::Rebar3 => config.rebar3,
    }
}

/// The installs table of a possibly absent scope; an absent scope has none.
pub open spec fn spec_scope_installs(scope: Option<ScopeConfig>) -> Seq<(String, InstallEntry)> {
    match scope {
        Some(sc) => sc.installs@,
        None => Seq::<(String, InstallEntry)>::empty(),
    }
}

/// The default id of a possibly absent scope; an absent scope has none.
pub open spec fn spec_scope_default(scope: Option<ScopeConfig>) -> Option<String> {
    match scope {
        Some(sc) => sc.default,
        None => None,
    }
}

/// The default build options of a possibly absent scope.
pub open spec fn spec_scope_build_options(scope: Option<ScopeConfig>) -> Option<String> {
    match scope {
        Some(sc) => sc.default_build_options,
        None => None,
    }
}

/// The scope configuration of a language, or the empty scope when the
/// document has none.
pub fn get_language_config(language: &Language, config: &Config) -> (r: ScopeConfig)
    ensures
        r.installs@ == spec_scope_installs(spec_language_scope(*config, *language)),
        r.default == spec_scope_default(spec_language_scope(*config, *language)),
        r.default_build_options == spec_scope_build_options(
            spec_language_scope(*config, *language),
        ),
{
    let scope: &Option<ScopeConfig> = match language {
        Language::Gleam => &config.gleam,
        Language::Erlang => &config.erlang,
        Language::Elixir => &config.elixir,
    };
    match scope {
        Some(sc) => sc.clone(),
        None => {
            let r = ScopeConfig::empty();
            proof {
                assert(r.installs@ =~= Seq::<(String, InstallEntry)>::empty());
            }
            r
        },
    }
}

/// The scope configuration of a component, or the empty scope when the
/// document has none.
pub fn get_component_config(kind: &Kind, config: &Config) -> (r: ScopeConfig)
    ensures
        r.installs@ == spec_scope_installs(spec_component_scope(*config, *kind)),
        r.default == spec_scope_default(spec_component_scope(*config, *kind)),
        r.default_build_options == spec_scope_build_options(spec_component_scope(*config, *kind)),
{
    let scope: &Option<ScopeConfig> = match kind {
        Kind::Elp => &config.elp,
        Kind::Rebar3 => &config.rebar3,
    };
    match scope {
        Some(sc) => sc.clone(),
        None => {
            let r = ScopeConfig::empty();
            proof {
                assert(r.installs@ =~= Seq::<(String, InstallEntry)>::empty());
            }
            r
        },
    }
}

/// The id the local override file pins for a scope, if any.
pub open spec fn spec_local_id(local: Option<LocalOverride>, scope_name: Seq<char>) -> Option<
    Seq<char>,
> {
    match local {
        None => None,
        Some(lo) => match spec_assoc(lo.entries@, scope_name) {
            Some(v) => Some(v@),
            None => None,
        },
    }
}

/// Reads the local override's pin for a scope.
pub fn get_local_id(scope_name: &str, local: &Option<LocalOverride>) -> (r: Option<String>)
    ensures
        match spec_local_id(*local, scope_name@) {
            Some(id) => r matches Some(s) && s@ == id,
            None => r is None,
        },
{
    match local {
        None => None,
        Some(lo) => match assoc_get(&lo.entries, scope_name) {
            Some(v) => Some(v.clone()),
            None => None,
        },
    }
}

/// The persisted default id of a scope, or `NoDefault` when the scope or
/// its default is absent.
pub fn get_default_id(scope: &Option<ScopeConfig>) -> (r: Result<String, Error>)
    ensures
        match spec_scope_default(*scope) {
            Some(d) => r matches Ok(s) && s@ == d@,
            None => r == Err::<String, Error>(Error::NoDefault),
        },
{
    match scope {
        None => Err(Error::NoDefault),
        Some(sc) => match &sc.default {
            None => Err(Error::NoDefault),
            Some(d) => Ok(d.clone()),
        },
    }
}

/// The id resolution selects for a scope: a local-override pin always wins
/// over the persisted default; with neither, resolution fails.
pub open spec fn spec_selected_id(
    local_id: Option<Seq<char>>,
    default_id: Option<String>,
) -> Result<Seq<char>, Error> {
    match local_id {
        Some(id) => Ok(id),
        None => match default_id {
            Some(d) => Ok(d@),
            None => Err(Error::NoDefault),
        },
    }
}

/// Resolution within one scope: select an id, then look it up.
pub open spec fn spec_resolve_scope(
    scope: Option<ScopeConfig>,
    local: Option<LocalOverride>,
    scope_name: Seq<char>,
) -> Result<Seq<char>, Error> {
    match spec_selected_id(spec_local_id(local, scope_name), spec_scope_default(scope)) {
        Err(e) => Err(e),
        Ok(id) => spec_lookup_dir(spec_scope_installs(scope), id),
    }
}

/// Full resolution of a shimmed command name: map the name to its language,
/// select an id, and normalize the install entry to a directory.
pub open spec fn spec_install_to_use(
    config: Config,
    local: Option<LocalOverride>,
    bin: Seq<char>,
) -> Result<Seq<char>, Error> {
    match spec_bin_lookup(spec_bins(), bin) {
        None => Err(Error::UnknownCommand),
        Some(language) => spec_resolve_scope(
            spec_language_scope(config, language),
            local,
            language.name_view(),
        ),
    }
}

/// Resolves a shimmed command name to the install directory that should run
/// it, consulting the local override before the global default. Read-only:
/// both documents are taken as read.
pub fn install_to_use(bin: &str, config: &Config, local: &Option<LocalOverride>) -> (r: Result<
    String,
    Error,
>)
    ensures
        match spec_install_to_use(*config, *local, bin@) {
            Ok(d) => r matches Ok(s) && s@ == d,
            Err(e) => r == Err::<String, Error>(e),
        },
{
    let language: Language = match crate::languages::bin_to_language(bin, config) {
        Ok(l) => l,
        Err(e) => {
            return Err(e);
        },
    };
    let scope: ScopeConfig = get_language_config(&language, config);
    let name: String = language.name();
    let id: String = match get_local_id(name.as_str(), local) {
        Some(id) => id,
        None => {
            match &scope.default {
                Some(d) => d.clone(),
                None => {
                    return Err(Error::NoDefault);
                },
            }
        },
    };
    lookup_install_by_id(id.as_str(), &scope)
}

/// Resolution for a component scope, analogous to `spec_install_to_use`.
pub open spec fn spec_component_install_to_use(
    config: Config,
    local: Option<LocalOverride>,
    kind: Kind,
) -> Result<Seq<char>, Error> {
    spec_resolve_scope(spec_component_scope(config, kind), local, kind.name_view())
}

/// Resolves a component to the install directory that should run it,
/// consulting the local override before the global default.
pub fn component_install_to_use(kind: &Kind, config: &Config, local: &Option<LocalOverride>) -> (r:
    Result<String, Error>)
    ensures
        match spec_component_install_to_use(*config, *local, *kind) {
            Ok(d) => r matches Ok(s) && s@ == d,
            Err(e) => r == Err::<String, Error>(e),
        },
{
    let scope: ScopeConfig = get_component_config(kind, config);
    let name: String = kind.name();
    let id: String = match get_local_id(name.as_str(), local) {
        Some(id) => id,
        None => {
            match &scope.default {
                Some(d) => d.clone(),
                None => {
                    return Err(Error::NoDefault);
                },
            }
        },
    };
    lookup_install_by_id(id.as_str(), &scope)
}

/// The configure options a scope falls back to when the caller supplies
/// none: the persisted `default_build_options`, or empty.
pub fn lookup_default_build_options(language: &Language, config: &Config) -> (r: String)
    ensures
        match spec_scope_build_options(spec_language_scope(*config, *language)) {
            Some(o) => r@ == o@,
            None => r@ == Seq::<char>::empty(),
        },
{
    let scope: ScopeConfig = get_language_config(language, config);
    match &scope.default_build_options {
        None => String::new(),
        Some(options) => options.clone(),
    }
}

/// Everything outside one language's scope is unchanged between two
/// documents.
pub open spec fn spec_scopes_otherwise_equal(c0: Config, c1: Config, language: Language) -> bool {
    &&& c1.install_dir == c0.install_dir
    &&& c1.elp == c0.elp
    &&& c1.rebar3 == c0.rebar3
    &&& forall|l2: Language|
        l2 != language ==> #[trigger] spec_language_scope(c1, l2) == spec_language_scope(c0, l2)
}

/// Everything outside one component's scope is unchanged between two
/// documents.
pub open spec fn spec_component_scopes_otherwise_equal(c0: Config, c1: Config, kind: Kind) -> bool {
    &&& c1.install_dir == c0.install_dir
    &&& c1.erlang == c0.erlang
    &&& c1.gleam == c0.gleam
    &&& c1.elixir == c0.elixir
    &&& forall|k2: Kind|
        k2 != kind ==> #[trigger] spec_component_scope(c1, k2) == spec_component_scope(c0, k2)
}

/// Rebinds a language's scope in the document, leaving all else unchanged.
fn set_language_scope(config: Config, language: &Language, scope: ScopeConfig) -> (r: Config)
    ensures
        spec_language_scope(r, *language) == Some(scope),
        spec_scopes_otherwise_equal(config, r, *language),
{
    match language {
        Language::Gleam => Config { gleam: Some(scope), ..config },
        Language::Erlang => Config { erlang: Some(scope), ..config },
        Language::Elixir => Config { elixir: Some(scope), ..config },
    }
}

/// Rebinds a component's scope in the document, leaving all else unchanged.
fn set_component_scope(config: Config, kind: &Kind, scope: ScopeConfig) -> (r: Config)
    ensures
        spec_component_scope(r, *kind) == Some(scope),
        spec_component_scopes_otherwise_equal(config, r, *kind),
{
    match kind {
        Kind::Elp => Config { elp: Some(scope), ..config },
        Kind::Rebar3 => Config { rebar3: Some(scope), ..config },
    }
}

/// Upserts an install record into a scope and makes its id the scope's new
/// default; every other id keeps its entry, and the build options are kept.
pub fn update_language_config(
    id: &String,
    release: &String,
    dir: String,
    otp_vsn: Option<String>,
    lc: ScopeConfig,
) -> (r: ScopeConfig)
    ensures
        r.default matches Some(d) && d@ == id@,
        r.default_build_options == lc.default_build_options,
        spec_assoc(r.installs@, id@) == Some(
            InstallEntry::Record { dir: Some(dir), release: Some(*release), otp_vsn },
        ),
        forall|x: Seq<char>|
            x != id@ ==> #[trigger] spec_assoc(r.installs@, x) == spec_assoc(lc.installs@, x),
        crate::table::unique_keys(lc.installs@) ==> crate::table::unique_keys(r.installs@),
{
    let entry = InstallEntry::Record {
        dir: Some(dir),
        release: Some(release.clone()),
        otp_vsn,
    };
    let installs = upsert(lc.installs, id.as_str(), entry);
    ScopeConfig {
        default: Some(id.clone()),
        default_build_options: lc.default_build_options,
        installs,
    }
}

/// Upserts an install record into a component scope and makes its id the
/// new default. Component records never carry an Erlang version.
pub fn update_component_config(id: &String, release: &String, dir: String, c: ScopeConfig) -> (r:
    ScopeConfig)
    ensures
        r.default matches Some(d) && d@ == id@,
        r.default_build_options == c.default_build_options,
        spec_assoc(r.installs@, id@) == Some(
            InstallEntry::Record { dir: Some(dir), release: Some(*release), otp_vsn: None },
        ),
        forall|x: Seq<char>|
            x != id@ ==> #[trigger] spec_assoc(r.installs@, x) == spec_assoc(c.installs@, x),
        crate::table::unique_keys(c.installs@) ==> crate::table::unique_keys(r.installs@),
{
    update_language_config(id, release, dir, None, c)
}

/// Records a fresh install under `id` for a language and makes it the new
/// default for that scope; nothing else in the document changes.
pub fn add_install(
    language: &Language,
    id: &String,
    release: &String,
    dir: String,
    otp_vsn: Option<String>,
    config: Config,
) -> (r: Config)
    ensures
        spec_scope_default(spec_language_scope(r, *language)) matches Some(d) && d@ == id@,
        spec_assoc(spec_scope_installs(spec_language_scope(r, *language)), id@) == Some(
            InstallEntry::Record { dir: Some(dir), release: Some(*release), otp_vsn },
        ),
        forall|x: Seq<char>|
            x != id@ ==> #[trigger] spec_assoc(
                spec_scope_installs(spec_language_scope(r, *language)),
                x,
            ) == spec_assoc(spec_scope_installs(spec_language_scope(config, *language)), x),
        spec_scope_build_options(spec_language_scope(r, *language)) == spec_scope_build_options(
            spec_language_scope(config, *language),
        ),
        spec_scopes_otherwise_equal(config, r, *language),
        crate::table::unique_keys(spec_scope_installs(spec_language_scope(config, *language)))
            ==> crate::table::unique_keys(
            spec_scope_installs(spec_language_scope(r, *language)),
        ),
{
    let scope: ScopeConfig = get_language_config(language, &config);
    let updated: ScopeConfig = update_language_config(id, release, dir, otp_vsn, scope);
    set_language_scope(config, language, updated)
}

/// Records a fresh install under `id` for a component and makes it the new
/// default for that scope; nothing else in the document changes.
pub fn add_component_install(
    kind: &Kind,
    id: &String,
    release: &String,
    dir: String,
    config: Config,
) -> (r: Config)
    ensures
        spec_scope_default(spec_component_scope(r, *kind)) matches Some(d) && d@ == id@,
        spec_assoc(spec_scope_installs(spec_component_scope(r, *kind)), id@) == Some(
            InstallEntry::Record { dir: Some(dir), release: Some(*release), otp_vsn: None },
        ),
        forall|x: Seq<char>|
            x != id@ ==> #[trigger] spec_assoc(
                spec_scope_installs(spec_component_scope(r, *kind)),
                x,
            ) == spec_assoc(spec_scope_installs(spec_component_scope(config, *kind)), x),
        spec_component_scopes_otherwise_equal(config, r, *kind),
        crate::table::unique_keys(spec_scope_installs(spec_component_scope(config, *kind)))
            ==> crate::table::unique_keys(spec_scope_installs(spec_component_scope(r, *kind))),
{
    let scope: ScopeConfig = get_component_config(kind, &config);
    let updated: ScopeConfig = update_component_config(id, release, dir, scope);
    set_component_scope(config, kind, updated)
}

/// Makes `id` the persisted default of a language's scope. The id must
/// already name an install in that scope; otherwise nothing changes and the
/// missing id is reported.
pub fn set_default(language: &Language, id: &String, config: Config) -> (r: Result<Config, Error>)
    ensures
        ({
            let scope0 = spec_language_scope(config, *language);
            match spec_assoc(spec_scope_installs(scope0), id@) {
                None => r == Err::<Config, Error>(Error::NoInstallForId),
                Some(_) => r matches Ok(c) && (spec_scope_default(
                    spec_language_scope(c, *language),
                ) matches Some(d) && d@ == id@) && spec_scope_installs(
                    spec_language_scope(c, *language),
                ) == spec_scope_installs(scope0) && spec_scope_build_options(
                    spec_language_scope(c, *language),
                ) == spec_scope_build_options(scope0) && spec_scopes_otherwise_equal(
                    config,
                    c,
                    *language,
                ),
            }
        }),
{
    let scope: ScopeConfig = get_language_config(language, &config);
    match crate::table::find_key_index(&scope.installs, id.as_str()) {
        None => {
            proof {
                crate::table::lemma_assoc_skip(scope.installs@, id@, scope.installs@.len() as int);
            }
            Err(Error::NoInstallForId)
        },
        Some(j) => {
            proof {
                crate::table::lemma_assoc_skip(scope.installs@, id@, j as int);
                assert(scope.installs@.skip(j as int)[0] == scope.installs@[j as int]);
            }
            let updated = ScopeConfig {
                default: Some(id.clone()),
                default_build_options: scope.default_build_options,
                installs: scope.installs,
            };
            Ok(set_language_scope(config, language, updated))
        },
    }
}

/// The override table a possibly absent local document holds.
pub open spec fn spec_override_entries(local: Option<LocalOverride>) -> Seq<(String, String)> {
    match local {
        None => Seq::<(String, String)>::empty(),
        Some(lo) => lo.entries@,
    }
}

/// Pins `id` as the project-local selection for a language. The id must
/// name an install with a usable directory in the scope; the returned
/// override document binds only that scope differently.
pub fn switch(language: &Language, id: &str, config: &Config, local: Option<LocalOverride>) -> (r:
    Result<LocalOverride, Error>)
    ensures
        match spec_lookup_dir(
            spec_scope_installs(spec_language_scope(*config, *language)),
            id@,
        ) {
            Err(e) => r == Err::<LocalOverride, Error>(e),
            Ok(_) => r matches Ok(lo) && spec_local_id(Some(lo), language.name_view()) == Some(id@)
                && (forall|x: Seq<char>|
                x != language.name_view() ==> #[trigger] spec_assoc(lo.entries@, x) == spec_assoc(
                    spec_override_entries(local),
                    x,
                )) && (crate::table::unique_keys(spec_override_entries(local))
                ==> crate::table::unique_keys(lo.entries@)),
        },
{
    let scope: ScopeConfig = get_language_config(language, config);
    match lookup_install_by_id(id, &scope) {
        Err(e) => Err(e),
        Ok(_) => {
            let entries: Vec<(String, String)> = match local {
                None => Vec::new(),
                Some(lo) => lo.entries,
            };
            proof {
                assert(entries@ =~= spec_override_entries(local));
            }
            let name: String = language.name();
            let entries = upsert(entries, name.as_str(), id.to_owned());
            Ok(LocalOverride { entries })
        },
    }
}

/// The document a fresh installation starts from: every scope present and
/// empty, with the given install root.
pub fn default_config(install_dir: String) -> (r: Config)
    ensures
        r.install_dir == install_dir,
        spec_scope_installs(r.erlang).len() == 0 && spec_scope_default(r.erlang) is None,
        spec_scope_installs(r.gleam).len() == 0 && spec_scope_default(r.gleam) is None,
        spec_scope_installs(r.elixir).len() == 0 && spec_scope_default(r.elixir) is None,
        spec_scope_installs(r.elp).len() == 0 && spec_scope_default(r.elp) is None,
        spec_scope_installs(r.rebar3).len() == 0 && spec_scope_default(r.rebar3) is None,
        r.erlang is Some && r.gleam is Some && r.elixir is Some && r.elp is Some && r.rebar3
            is Some,
{
    Config {
        install_dir,
        erlang: Some(ScopeConfig::empty()),
        gleam: Some(ScopeConfig::empty()),
        elixir: Some(ScopeConfig::empty()),
        elp: Some(ScopeConfig::empty()),
        rebar3: Some(ScopeConfig::empty()),
    }
}

/// Picks the major version of the active Erlang from the entries of its
/// releases directory: the first entry that is itself a directory. Each
/// entry comes with whether it is a directory.
pub fn pick_otp_major_vsn(entries: &Vec<(String, bool)>) -> (r: Option<String>)
    ensures
        match r {
            Some(v) => exists|i: int|
                0 <= i < entries@.len() && (#[trigger] entries@[i]).1 && entries@[i].0@ == v@ && (
                forall|j: int| 0 <= j < i ==> !(#[trigger] entries@[j]).1),
            None => forall|j: int| 0 <= j < entries@.len() ==> !(#[trigger] entries@[j]).1,
        },
{
    let mut i: usize = 0;
    while i < entries.len()
        invariant
            0 <= i <= entries@.len(),
            forall|j: int| 0 <= j < i ==> !(#[trigger] entries@[j]).1,
        decreases entries@.len() - i,
    {
        if entries[i].1 {
            return Some(entries[i].0.clone());
        }
        i = i + 1;
    }
    None
}

/// The install ids a scope lists, in table order.
pub fn install_ids(scope: &ScopeConfig) -> (r: Vec<String>)
    ensures
        r@.len() == scope.installs@.len(),
        forall|i: int| 0 <= i < r@.len() ==> (#[trigger] r@[i])@ == scope.installs@[i].0@,
{
    let mut ids: Vec<String> = Vec::new();
    let mut i: usize = 0;
    while i < scope.installs.len()
        invariant
            0 <= i <= scope.installs@.len(),
            ids@.len() == i,
            forall|j: int| 0 <= j < i ==> (#[trigger] ids@[j])@ == scope.installs@[j].0@,
        decreases scope.installs@.len() - i,
    {
        ids.push(scope.installs[i].0.clone());
        i = i + 1;
    }
    ids
}

/// For any scope and id not present in its installs table, resolution
/// yields `NoInstallForId`. The id in question is the one resolution
/// selects, from the override or the default.
pub proof fn lemma_resolve_missing_id(
    config: Config,
    local: Option<LocalOverride>,
    bin: Seq<char>,
    language: Language,
    id: Seq<char>,
)
    requires
        spec_bin_lookup(spec_bins(), bin) == Some(language),
        spec_selected_id(
            spec_local_id(local, language.name_view()),
            spec_scope_default(spec_language_scope(config, language)),
        ) == Ok::<Seq<char>, Error>(id),
        spec_assoc(spec_scope_installs(spec_language_scope(config, language)), id) is None,
    ensures
        spec_install_to_use(config, local, bin) == Err::<Seq<char>, Error>(Error::NoInstallForId),
{
}

/// A local-override pin for a scope always wins over the scope's persisted
/// default when both exist: resolution looks up the pinned id, and the
/// default plays no part.
pub proof fn lemma_override_wins(
    config: Config,
    local: Option<LocalOverride>,
    bin: Seq<char>,
    language: Language,
    id: Seq<char>,
)
    requires
        spec_bin_lookup(spec_bins(), bin) == Some(language),
        spec_local_id(local, language.name_view()) == Some(id),
        spec_scope_default(spec_language_scope(config, language)) is Some,
    ensures
        spec_install_to_use(config, local, bin) == spec_lookup_dir(
            spec_scope_installs(spec_language_scope(config, language)),
            id,
        ),
{
}

/// Round trip: once a scope's installs table binds `id` to an entry with
/// directory `dir` and `id` is the persisted default — the state that
/// recording an install and then making it the default leaves behind —
/// resolving any of the scope's commands returns `dir`, absent a local pin.
pub proof fn lemma_round_trip_resolution(
    config: Config,
    local: Option<LocalOverride>,
    bin: Seq<char>,
    language: Language,
    id: Seq<char>,
    dir: Seq<char>,
)
    requires
        spec_bin_lookup(spec_bins(), bin) == Some(language),
        spec_local_id(local, language.name_view()) is None,
        spec_scope_default(spec_language_scope(config, language)) matches Some(d) && d@ == id,
        spec_assoc(spec_scope_installs(spec_language_scope(config, language)), id) matches Some(e)
            && e.dir_view() == Some(dir),
    ensures
        spec_install_to_use(config, local, bin) == Ok::<Seq<char>, Error>(dir),
{
}

/// Legacy bare-string entries and structured records carrying the same
/// directory resolve to the same directory for the same id.
pub proof fn lemma_schema_generations_agree(
    installs1: Seq<(String, InstallEntry)>,
    installs2: Seq<(String, InstallEntry)>,
    id: Seq<char>,
    d: String,
    release: Option<String>,
    otp_vsn: Option<String>,
)
    requires
        spec_assoc(installs1, id) == Some(InstallEntry::Dir(d)),
        spec_assoc(installs2, id) == Some(InstallEntry::Record { dir: Some(d), release, otp_vsn }),
    ensures
        spec_lookup_dir(installs1, id) == spec_lookup_dir(installs2, id),
        spec_lookup_dir(installs1, id) == Ok::<Seq<char>, Error>(d@),
{
}

} // verus!
