use beamup::error::Error;
use beamup::links::{link_outcomes, update};

#[test]
fn partial_failure_still_creates_the_rest_and_reports_once() {
    let names = vec![
        "erl".to_string(),
        "erlc".to_string(),
        "escript".to_string(),
        "dialyzer".to_string(),
    ];
    let ok = vec![true, false, true, false];
    let report = link_outcomes(&names, &ok);
    assert_eq!(report.created, vec!["erl".to_string(), "escript".to_string()]);
    assert_eq!(report.failed, vec!["erlc".to_string(), "dialyzer".to_string()]);
    let r = update(&names, &ok);
    assert_eq!(
        r,
        Err(Error::LinkFailure(vec!["erlc".to_string(), "dialyzer".to_string()]))
    );
}

#[test]
fn all_links_created_reports_success() {
    let names = vec!["gleam".to_string()];
    let ok = vec![true];
    assert_eq!(update(&names, &ok), Ok(()));
    let report = link_outcomes(&names, &ok);
    assert_eq!(report.created, names);
    assert!(report.failed.is_empty());
}

#[test]
fn empty_batch_is_a_success() {
    let names: Vec<String> = vec![];
    let ok: Vec<bool> = vec![];
    assert_eq!(update(&names, &ok), Ok(()));
}

#[test]
fn every_failure_is_listed() {
    let names = vec!["a".to_string(), "b".to_string()];
    let ok = vec![false, false];
    let report = link_outcomes(&names, &ok);
    assert!(report.created.is_empty());
    assert_eq!(report.failed, names);
}
