use vstd::prelude::*;

use crate::config::{spec_scope_build_options, spec_language_scope, Config};
use crate::error::Error;
use crate::languages::Language;
use crate::shellwords::{spec_shell_split, split};
use crate::utils::DirContents;

verus! {

/// The sticky pipeline-wide status: one failed external step flips it to
/// `Fail`, and no later success flips it back.
#[derive(Debug, Clone, Copy, PartialEq, Eq, Structural)]
pub enum BuildResult {
    Success,
    Fail,
}

/// The two synchronous gates of the canonical pipeline.
#[derive(Debug, Clone, Copy, PartialEq, Eq, Structural)]
pub enum CheckKind {
    /// Verifies an optional capability in the unpacked source; its absence
    /// is a warning, never fatal.
    SourceCapability,
    /// The safety gate: decides from the accumulated status whether it is
    /// safe to clear a previously populated install directory.
    SafetyGate,
}

/// One step of the build pipeline: an external command run in the source
/// tree, or a synchronous check between commands.
pub enum BuildStep {
    Exec(String, Vec<String>),
    Check(CheckKind),
}

/// What a check decides: continue silently, continue with a logged
/// warning, or abort the whole pipeline.
pub enum CheckResult {
    Success,
    Warning(String),
    Fail,
}

/// What a check asks the caller to do with the install directory.
#[derive(Debug, Clone, Copy, PartialEq, Eq, Structural)]
pub enum DirAction {
    Leave,
    Clear,
}

/// How a whole pipeline run ends: aborted by a failing check, or run to
/// the last step with the accumulated status.
#[derive(Debug, Clone, Copy, PartialEq, Eq, Structural)]
pub enum PipelineOutcome {
    Completed(BuildResult),
    Aborted,
}

/// Folds one external step's exit into the sticky status.
pub open spec fn spec_record_exec(status: BuildResult, ok: bool) -> BuildResult {
    if ok {
        status
    } else {
        BuildResult::Fail
    }
}

/// Records whether an external step exited 0. A failure flips the status
/// to `Fail` and is sticky; it does not by itself stop the pipeline.
pub fn record_exec(status: BuildResult, ok: bool) -> (r: BuildResult)
    ensures
        r == spec_record_exec(status, ok),
        status == BuildResult::Fail ==> r == BuildResult::Fail,
{
    if ok {
        status
    } else {
        BuildResult::Fail
    }
}

/// Evaluates one check against the accumulated status, the capability
/// probe and the install directory. The safety gate aborts exactly when
/// the accumulated status is `Fail`, and permits clearing the directory
/// exactly when the status is `Success`; the capability check only ever
/// warns.
pub fn eval_check(
    kind: CheckKind,
    status: BuildResult,
    capability_present: bool,
    install_dir: &DirContents,
) -> (r: (CheckResult, DirAction))
    ensures
        kind == CheckKind::SourceCapability ==> r.1 == DirAction::Leave && (if capability_present {
            r.0 is Success
        } else {
            r.0 matches CheckResult::Warning(m) && m@
                == "No usable OpenSSL found, please specify one with --with-ssl configure option, `crypto` application will not work in current build"@
        }),
        kind == CheckKind::SafetyGate && status == BuildResult::Fail ==> r.0 is Fail && r.1
            == DirAction::Leave,
        kind == CheckKind::SafetyGate && status == BuildResult::Success ==> r.0 is Success && (r.1
            == if install_dir.is_empty_dir() {
            DirAction::Leave
        } else {
            DirAction::Clear
        }),
{
    match kind {
        CheckKind::SourceCapability => {
            if capability_present {
                (CheckResult::Success, DirAction::Leave)
            } else {
                (
                    CheckResult::Warning(
                        String::from_str(
                            "No usable OpenSSL found, please specify one with --with-ssl configure option, `crypto` application will not work in current build",
                        ),
                    ),
                    DirAction::Leave,
                )
            }
        },
        CheckKind::SafetyGate => {
            match status {
                BuildResult::Fail => (CheckResult::Fail, DirAction::Leave),
                BuildResult::Success => {
                    let is_empty: bool = match install_dir {
                        DirContents::Present(v) => v.len() == 0,
                        DirContents::Absent => false,
                    };
                    if is_empty {
                        (CheckResult::Success, DirAction::Leave)
                    } else {
                        (CheckResult::Success, DirAction::Clear)
                    }
                },
            }
        },
    }
}

/// How many external commands a step list holds.
pub open spec fn spec_exec_count(steps: Seq<BuildStep>) -> nat
    decreases steps.len(),
{
    if steps.len() == 0 {
        0
    } else {
        (if steps[0] is Exec {
            1nat
        } else {
            0nat
        }) + spec_exec_count(steps.drop_first())
    }
}

/// How a run over these steps ends, given the exit of each external
/// command in order and the status accumulated so far. Checks depend only
/// on the status: the capability check never stops the run, and the safety
/// gate aborts exactly on an accumulated `Fail`.
pub open spec fn spec_pipeline_outcome(
    steps: Seq<BuildStep>,
    exec_ok: Seq<bool>,
    status: BuildResult,
) -> PipelineOutcome
    decreases steps.len(),
{
    if steps.len() == 0 {
        PipelineOutcome::Completed(status)
    } else {
        match steps[0] {
            BuildStep::Exec(_, _) => spec_pipeline_outcome(
                steps.drop_first(),
                exec_ok.drop_first(),
                spec_record_exec(status, exec_ok[0]),
            ),
            BuildStep::Check(CheckKind::SourceCapability) => spec_pipeline_outcome(
                steps.drop_first(),
                exec_ok,
                status,
            ),
            BuildStep::Check(CheckKind::SafetyGate) => {
                if status is Fail {
                    PipelineOutcome::Aborted
                } else {
                    spec_pipeline_outcome(steps.drop_first(), exec_ok, status)
                }
            },
        }
    }
}

/// Whether a run over these steps reaches a safety gate while the
/// accumulated status is `Success` — the one and only licence to touch the
/// install directory.
pub open spec fn spec_gate_success(
    steps: Seq<BuildStep>,
    exec_ok: Seq<bool>,
    status: BuildResult,
) -> bool
    decreases steps.len(),
{
    if steps.len() == 0 {
        false
    } else {
        match steps[0] {
            BuildStep::Exec(_, _) => spec_gate_success(
                steps.drop_first(),
                exec_ok.drop_first(),
                spec_record_exec(status, exec_ok[0]),
            ),
            BuildStep::Check(CheckKind::SourceCapability) => spec_gate_success(
                steps.drop_first(),
                exec_ok,
                status,
            ),
            BuildStep::Check(CheckKind::SafetyGate) => status is Success,
        }
    }
}

/// Runs the pipeline over a recorded exit for each external command:
/// statuses accumulate stickily, the capability check only warns, and the
/// safety gate either aborts — leaving the install directory exactly as it
/// was — or clears the directory and lets the run continue. The install
/// directory is touched if and only if a safety gate is reached on
/// `Success`.
pub fn run_pipeline(
    steps: &Vec<BuildStep>,
    exec_ok: &Vec<bool>,
    capability_present: bool,
    install_dir: &mut DirContents,
) -> (r: PipelineOutcome)
    requires
        exec_ok@.len() == spec_exec_count(steps@),
    ensures
        r == spec_pipeline_outcome(steps@, exec_ok@, BuildResult::Success),
        spec_gate_success(steps@, exec_ok@, BuildResult::Success) ==> final(install_dir).is_present()
            == old(install_dir).is_present() && final(install_dir).entries_view()
            == Seq::<String>::empty(),
        !spec_gate_success(steps@, exec_ok@, BuildResult::Success) ==> *final(install_dir)
            == *old(install_dir),
{
    let mut status: BuildResult = BuildResult::Success;
    let mut gated: bool = false;
    let mut i: usize = 0;
    let mut k: usize = 0;
    let n_exec: usize = exec_ok.len();
    proof {
        assert(steps@.skip(0) =~= steps@);
        assert(exec_ok@.skip(0) =~= exec_ok@);
    }
    while i < steps.len()
        invariant
            0 <= i <= steps@.len(),
            0 <= k <= exec_ok@.len(),
            n_exec == exec_ok@.len(),
            spec_exec_count(steps@.skip(i as int)) == exec_ok@.len() - k,
            spec_pipeline_outcome(steps@, exec_ok@, BuildResult::Success) == spec_pipeline_outcome(
                steps@.skip(i as int),
                exec_ok@.skip(k as int),
                status,
            ),
            spec_gate_success(steps@, exec_ok@, BuildResult::Success) == (gated
                || spec_gate_success(steps@.skip(i as int), exec_ok@.skip(k as int), status)),
            gated ==> install_dir.is_present() == old(install_dir).is_present()
                && install_dir.entries_view() == Seq::<String>::empty(),
            !gated ==> *install_dir == *old(install_dir),
        decreases steps@.len() - i,
    {
        proof {
            assert(steps@.skip(i as int)[0] == steps@[i as int]);
            assert(steps@.skip(i as int).drop_first() =~= steps@.skip(i as int + 1));
        }
        match &steps[i] {
            BuildStep::Exec(_, _) => {
                proof {
                    assert(spec_exec_count(steps@.skip(i as int)) >= 1);
                    assert(k < exec_ok@.len());
                    assert(exec_ok@.skip(k as int)[0] == exec_ok@[k as int]);
                    assert(exec_ok@.skip(k as int).drop_first() =~= exec_ok@.skip(k as int + 1));
                }
                status = record_exec(status, exec_ok[k]);
                k = k + 1;
            },
            BuildStep::Check(kind) => {
                let (verdict, action) = eval_check(*kind, status, capability_present, install_dir);
                match verdict {
                    CheckResult::Fail => {
                        return PipelineOutcome::Aborted;
                    },
                    _ => {},
                }
                match action {
                    DirAction::Clear => {
                        let fresh: Vec<String> = Vec::new();
                        match install_dir {
                            DirContents::Present(_) => {
                                *install_dir = DirContents::Present(fresh);
                            },
                            DirContents::Absent => {},
                        }
                        gated = true;
                    },
                    DirAction::Leave => {
                        match kind {
                            CheckKind::SafetyGate => {
                                gated = true;
                            },
                            CheckKind::SourceCapability => {},
                        }
                    },
                }
            },
        }
        i = i + 1;
    }
    PipelineOutcome::Completed(status)
}

/// The arguments of the configure step: the mandatory install prefix
/// first, then the user's options split into shell words, so a quoted
/// value containing spaces survives as one argument.
pub fn configure_args(install_dir: &str, user_build_options: &str) -> (r: Result<
    Vec<String>,
    Error,
>)
    ensures
        match spec_shell_split(user_build_options@) {
            None => r == Err::<Vec<String>, Error>(Error::InvalidBuildOptions),
            Some(opts) => r matches Ok(v) && v.deep_view() == seq!["--prefix"@, install_dir@]
                + opts,
        },
{
    let mut user_options: Vec<String> = match split(user_build_options) {
        Ok(v) => v,
        Err(e) => {
            return Err(e);
        },
    };
    let mut args: Vec<String> = Vec::new();
    args.push(String::from_str("--prefix"));
    args.push(install_dir.to_owned());
    let ghost prefix = args.deep_view();
    proof {
        assert(prefix =~= seq!["--prefix"@, install_dir@]);
    }
    args.append(&mut user_options);
    proof {
        assert(args.deep_view() =~= seq!["--prefix"@, install_dir@]
            + spec_shell_split(user_build_options@)->Some_0);
    }
    Ok(args)
}

/// The canonical seven steps of a build from source: configure with the
/// injected prefix, the capability check, the parallel build and
/// documentation steps, the safety gate, and the two install steps.
pub open spec fn spec_is_canonical(steps: Seq<BuildStep>) -> bool {
    &&& steps.len() == 7
    &&& steps[0] is Exec
    &&& steps[1] == BuildStep::Check(CheckKind::SourceCapability)
    &&& steps[2] is Exec
    &&& steps[3] is Exec
    &&& steps[4] == BuildStep::Check(CheckKind::SafetyGate)
    &&& steps[5] is Exec
    &&& steps[6] is Exec
}

/// Builds the canonical step list. `num_cpus` is the degree of parallelism
/// handed opaquely to the build tool.
pub fn build_steps(install_dir: &str, user_build_options: &str, num_cpus: &str) -> (r: Result<
    Vec<BuildStep>,
    Error,
>)
    ensures
        match spec_shell_split(user_build_options@) {
            None => r == Err::<Vec<BuildStep>, Error>(Error::InvalidBuildOptions),
            Some(opts) => r matches Ok(steps) && spec_is_canonical(steps@) && spec_exec_count(
                steps@,
            ) == 5 && (steps@[0] matches BuildStep::Exec(p, a) && p@ == "./configure"@
                && a.deep_view() == seq!["--prefix"@, install_dir@] + opts) && (
            steps@[2] matches BuildStep::Exec(p, a) && p@ == "make"@ && a.deep_view() == seq![
                "-j"@,
                num_cpus@,
            ]) && (steps@[3] matches BuildStep::Exec(p, a) && p@ == "make"@ && a.deep_view()
                == seq!["-j"@, num_cpus@, "docs"@, "DOC_TARGETS=chunks"@]) && (
            steps@[5] matches BuildStep::Exec(p, a) && p@ == "make"@ && a.deep_view() == seq![
                "-j"@,
                num_cpus@,
                "install"@,
            ]) && (steps@[6] matches BuildStep::Exec(p, a) && p@ == "make"@ && a.deep_view()
                == seq!["-j"@, num_cpus@, "install-docs"@]),
        },
{
    let configure: Vec<String> = match configure_args(install_dir, user_build_options) {
        Ok(v) => v,
        Err(e) => {
            return Err(e);
        },
    };
    let mut make_args: Vec<String> = Vec::new();
    make_args.push(String::from_str("-j"));
    make_args.push(num_cpus.to_owned());
    proof {
        assert(make_args.deep_view() =~= seq!["-j"@, num_cpus@]);
    }
    let mut docs_args: Vec<String> = Vec::new();
    docs_args.push(String::from_str("-j"));
    docs_args.push(num_cpus.to_owned());
    docs_args.push(String::from_str("docs"));
    docs_args.push(String::from_str("DOC_TARGETS=chunks"));
    proof {
        assert(docs_args.deep_view() =~= seq!["-j"@, num_cpus@, "docs"@, "DOC_TARGETS=chunks"@]);
    }
    let mut install_args: Vec<String> = Vec::new();
    install_args.push(String::from_str("-j"));
    install_args.push(num_cpus.to_owned());
    install_args.push(String::from_str("install"));
    proof {
        assert(install_args.deep_view() =~= seq!["-j"@, num_cpus@, "install"@]);
    }
    let mut install_docs_args: Vec<String> = Vec::new();
    install_docs_args.push(String::from_str("-j"));
    install_docs_args.push(num_cpus.to_owned());
    install_docs_args.push(String::from_str("install-docs"));
    proof {
        assert(install_docs_args.deep_view() =~= seq!["-j"@, num_cpus@, "install-docs"@]);
    }
    let mut steps: Vec<BuildStep> = Vec::new();
    steps.push(BuildStep::Exec(String::from_str("./configure"), configure));
    steps.push(BuildStep::Check(CheckKind::SourceCapability));
    steps.push(BuildStep::Exec(String::from_str("make"), make_args));
    steps.push(BuildStep::Exec(String::from_str("make"), docs_args));
    steps.push(BuildStep::Check(CheckKind::SafetyGate));
    steps.push(BuildStep::Exec(String::from_str("make"), install_args));
    steps.push(BuildStep::Exec(String::from_str("make"), install_docs_args));
    proof {
        reveal_with_fuel(spec_exec_count, 9);
        assert(steps@.drop_first() =~= steps@.skip(1));
        assert(spec_exec_count(steps@) == 5) by {
            assert(steps@.skip(1).drop_first() =~= steps@.skip(2));
            assert(steps@.skip(2).drop_first() =~= steps@.skip(3));
            assert(steps@.skip(3).drop_first() =~= steps@.skip(4));
            assert(steps@.skip(4).drop_first() =~= steps@.skip(5));
            assert(steps@.skip(5).drop_first() =~= steps@.skip(6));
            assert(steps@.skip(6).drop_first() =~= steps@.skip(7));
            assert(steps@.skip(7).len() == 0);
        }
    }
    Ok(steps)
}

/// The configure options a build uses: an override handed in by the
/// caller's environment wins; otherwise the scope's persisted default
/// options; otherwise none.
pub fn choose_build_options(env_options: Option<String>, language: &Language, config: &Config) -> (r:
    String)
    ensures
        match env_options {
            Some(o) => r@ == o@,
            None => match spec_scope_build_options(spec_language_scope(*config, *language)) {
                Some(o) => r@ == o@,
                None => r@ == Seq::<char>::empty(),
            },
        },
{
    match env_options {
        Some(o) => o,
        None => crate::config::lookup_default_build_options(language, config),
    }
}

/// A run whose configure and build commands all succeed reaches the
/// safety gate on `Success`: clearing a previously populated install
/// directory is then permitted, and the run is not aborted there.
pub proof fn lemma_gate_success_when_all_pass(steps: Seq<BuildStep>, exec_ok: Seq<bool>)
    requires
        spec_is_canonical(steps),
        exec_ok.len() == 5,
        exec_ok[0],
        exec_ok[1],
        exec_ok[2],
    ensures
        spec_gate_success(steps, exec_ok, BuildResult::Success),
        spec_pipeline_outcome(steps, exec_ok, BuildResult::Success) == PipelineOutcome::Completed(
            spec_record_exec(spec_record_exec(BuildResult::Success, exec_ok[3]), exec_ok[4]),
        ),
{
    reveal_with_fuel(spec_gate_success, 9);
    reveal_with_fuel(spec_pipeline_outcome, 9);
    lemma_canonical_unfold(steps, exec_ok);
}

/// A run in which any configure or build command fails carries `Fail`
/// into the safety gate: the run aborts there, and the install directory
/// is never touched.
pub proof fn lemma_gate_abort_when_any_fail(steps: Seq<BuildStep>, exec_ok: Seq<bool>)
    requires
        spec_is_canonical(steps),
        exec_ok.len() == 5,
        !(exec_ok[0] && exec_ok[1] && exec_ok[2]),
    ensures
        !spec_gate_success(steps, exec_ok, BuildResult::Success),
        spec_pipeline_outcome(steps, exec_ok, BuildResult::Success) == PipelineOutcome::Aborted,
{
    reveal_with_fuel(spec_gate_success, 9);
    reveal_with_fuel(spec_pipeline_outcome, 9);
    lemma_canonical_unfold(steps, exec_ok);
}

/// The skip chain of a canonical step list, shared by the two gate lemmas.
proof fn lemma_canonical_unfold(steps: Seq<BuildStep>, exec_ok: Seq<bool>)
    requires
        spec_is_canonical(steps),
        exec_ok.len() == 5,
    ensures
        steps.drop_first() =~= steps.skip(1),
        steps.skip(1).drop_first() =~= steps.skip(2),
        steps.skip(2).drop_first() =~= steps.skip(3),
        steps.skip(3).drop_first() =~= steps.skip(4),
        steps.skip(4).drop_first() =~= steps.skip(5),
        exec_ok.drop_first() =~= exec_ok.skip(1),
        exec_ok.skip(1).drop_first() =~= exec_ok.skip(2),
        exec_ok.skip(2).drop_first() =~= exec_ok.skip(3),
{
}

} // verus!
