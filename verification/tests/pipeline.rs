use beamup::error::Error;
use beamup::pipeline::{
    build_steps, choose_build_options, configure_args, eval_check, record_exec, run_pipeline,
    BuildResult, BuildStep, CheckKind, CheckResult, DirAction, PipelineOutcome,
};
use beamup::config::default_config;
use beamup::languages::Language;
use beamup::utils::DirContents;

fn canonical() -> Vec<BuildStep> {
    build_steps("/data/beamup/erlang/27", "", "8").expect("empty options split")
}

fn populated_dir() -> DirContents {
    DirContents::Present(vec!["bin".to_string(), "lib".to_string()])
}

#[test]
fn all_steps_pass_clears_existing_install_dir() {
    let steps = canonical();
    let mut dir = populated_dir();
    let outcome = run_pipeline(&steps, &vec![true, true, true, true, true], true, &mut dir);
    assert_eq!(outcome, PipelineOutcome::Completed(BuildResult::Success));
    match dir {
        DirContents::Present(entries) => assert!(entries.is_empty()),
        DirContents::Absent => panic!("directory vanished"),
    }
}

#[test]
fn failed_step_before_gate_aborts_and_preserves_install_dir() {
    let steps = canonical();
    let mut dir = populated_dir();
    let outcome = run_pipeline(&steps, &vec![true, false, true, true, true], true, &mut dir);
    assert_eq!(outcome, PipelineOutcome::Aborted);
    match dir {
        DirContents::Present(entries) => {
            assert_eq!(entries, vec!["bin".to_string(), "lib".to_string()]);
        }
        DirContents::Absent => panic!("directory vanished"),
    }
}

#[test]
fn failed_configure_aborts() {
    let steps = canonical();
    let mut dir = DirContents::Absent;
    let outcome = run_pipeline(&steps, &vec![false, true, true, true, true], true, &mut dir);
    assert_eq!(outcome, PipelineOutcome::Aborted);
    assert!(matches!(dir, DirContents::Absent));
}

#[test]
fn trailing_failure_is_not_caught_by_any_gate() {
    // Only the interior safety gate inspects the status; a failure in the
    // final install step runs to completion carrying the flag.
    let steps = canonical();
    let mut dir = populated_dir();
    let outcome = run_pipeline(&steps, &vec![true, true, true, true, false], true, &mut dir);
    assert_eq!(outcome, PipelineOutcome::Completed(BuildResult::Fail));
    match dir {
        DirContents::Present(entries) => assert!(entries.is_empty()),
        DirContents::Absent => panic!("directory vanished"),
    }
}

#[test]
fn missing_capability_only_warns() {
    let steps = canonical();
    let mut dir = DirContents::Present(vec![]);
    let outcome = run_pipeline(&steps, &vec![true, true, true, true, true], false, &mut dir);
    assert_eq!(outcome, PipelineOutcome::Completed(BuildResult::Success));
}

#[test]
fn exec_failure_is_sticky() {
    let s = record_exec(BuildResult::Success, false);
    assert_eq!(s, BuildResult::Fail);
    let s = record_exec(s, true);
    assert_eq!(s, BuildResult::Fail);
}

#[test]
fn safety_gate_verdicts() {
    let full = populated_dir();
    let empty = DirContents::Present(vec![]);
    let (v, a) = eval_check(CheckKind::SafetyGate, BuildResult::Fail, true, &full);
    assert!(matches!(v, CheckResult::Fail));
    assert_eq!(a, DirAction::Leave);
    let (v, a) = eval_check(CheckKind::SafetyGate, BuildResult::Success, true, &full);
    assert!(matches!(v, CheckResult::Success));
    assert_eq!(a, DirAction::Clear);
    let (v, a) = eval_check(CheckKind::SafetyGate, BuildResult::Success, true, &empty);
    assert!(matches!(v, CheckResult::Success));
    assert_eq!(a, DirAction::Leave);
}

#[test]
fn capability_check_warns_without_stopping() {
    let dir = DirContents::Absent;
    let (v, a) = eval_check(CheckKind::SourceCapability, BuildResult::Success, false, &dir);
    assert!(matches!(v, CheckResult::Warning(_)));
    assert_eq!(a, DirAction::Leave);
    let (v, _) = eval_check(CheckKind::SourceCapability, BuildResult::Fail, true, &dir);
    assert!(matches!(v, CheckResult::Success));
}

#[test]
fn canonical_steps_have_prefix_and_parallelism() {
    let steps = build_steps("/prefix/dir", "--without-wx --without-odbc", "4").expect("options split");
    assert_eq!(steps.len(), 7);
    match &steps[0] {
        BuildStep::Exec(program, args) => {
            assert_eq!(program, "./configure");
            assert_eq!(
                args,
                &vec![
                    "--prefix".to_string(),
                    "/prefix/dir".to_string(),
                    "--without-wx".to_string(),
                    "--without-odbc".to_string(),
                ]
            );
        }
        _ => panic!("first step must configure"),
    }
    assert!(matches!(steps[1], BuildStep::Check(CheckKind::SourceCapability)));
    match &steps[2] {
        BuildStep::Exec(program, args) => {
            assert_eq!(program, "make");
            assert_eq!(args, &vec!["-j".to_string(), "4".to_string()]);
        }
        _ => panic!("third step must build"),
    }
    match &steps[3] {
        BuildStep::Exec(_, args) => {
            assert_eq!(
                args,
                &vec![
                    "-j".to_string(),
                    "4".to_string(),
                    "docs".to_string(),
                    "DOC_TARGETS=chunks".to_string(),
                ]
            );
        }
        _ => panic!("fourth step must build docs"),
    }
    assert!(matches!(steps[4], BuildStep::Check(CheckKind::SafetyGate)));
    match &steps[5] {
        BuildStep::Exec(_, args) => {
            assert_eq!(args, &vec!["-j".to_string(), "4".to_string(), "install".to_string()]);
        }
        _ => panic!("sixth step must install"),
    }
    match &steps[6] {
        BuildStep::Exec(_, args) => {
            assert_eq!(
                args,
                &vec!["-j".to_string(), "4".to_string(), "install-docs".to_string()]
            );
        }
        _ => panic!("seventh step must install docs"),
    }
}

#[test]
fn quoted_value_survives_as_one_configure_argument() {
    let args = configure_args("/p", "CFLAGS=\"-g -O2\" --enable-x").expect("options split");
    assert_eq!(
        args,
        vec![
            "--prefix".to_string(),
            "/p".to_string(),
            "CFLAGS=-g -O2".to_string(),
            "--enable-x".to_string(),
        ]
    );
}

#[test]
fn unmatched_quote_in_options_refused() {
    let r = build_steps("/p", "--with-ssl=\"/opt/ssl", "2");
    assert!(matches!(r, Err(Error::InvalidBuildOptions)));
}

#[test]
fn environment_options_win_over_configured_default() {
    let mut config = default_config("/data".to_string());
    config.erlang = Some(beamup::config::ScopeConfig {
        default: None,
        default_build_options: Some("--from-config".to_string()),
        installs: vec![],
    });
    let from_env = choose_build_options(Some("--from-env".to_string()), &Language::Erlang, &config);
    assert_eq!(from_env, "--from-env".to_string());
    let from_config = choose_build_options(None, &Language::Erlang, &config);
    assert_eq!(from_config, "--from-config".to_string());
    let empty = choose_build_options(None, &Language::Gleam, &config);
    assert_eq!(empty, "".to_string());
}
