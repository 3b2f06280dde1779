use submodule_hook::check_submodules::{
    bail, inspect, CheckError, RepositoryProbe, SubmoduleProbe, SubmodulesDiagnostic,
};

fn status(name: &str, wd_modified: bool, index_modified: bool) -> SubmoduleProbe {
    SubmoduleProbe::Status { name: name.to_string(), wd_modified, index_modified }
}

fn names(list: &[&str]) -> Vec<String> {
    list.iter().map(|name| name.to_string()).collect()
}

fn diagnostic_of(strict: bool, probes: Vec<SubmoduleProbe>) -> SubmodulesDiagnostic {
    inspect(strict, &RepositoryProbe::Submodules(probes))
        .expect("the inspection is complete")
        .expect("a diagnostic is given")
}

#[test]
fn unopenable_repository_bails_by_strictness() {
    assert!(matches!(inspect(false, &RepositoryProbe::Unopenable), Ok(None)));
    assert!(matches!(
        inspect(true, &RepositoryProbe::Unopenable),
        Err(CheckError::RepoOpen)
    ));
}

#[test]
fn unlistable_submodules_bail_by_strictness() {
    assert!(matches!(inspect(false, &RepositoryProbe::Unlistable), Ok(None)));
    assert!(matches!(
        inspect(true, &RepositoryProbe::Unlistable),
        Err(CheckError::SubmoduleList)
    ));
}

#[test]
fn failed_status_lookup_bails_by_strictness() {
    let probes = || vec![status("a", true, false), SubmoduleProbe::StatusUnavailable];
    assert!(matches!(inspect(false, &RepositoryProbe::Submodules(probes())), Ok(None)));
    assert!(matches!(
        inspect(true, &RepositoryProbe::Submodules(probes())),
        Err(CheckError::StatusQuery)
    ));
    let first = || vec![SubmoduleProbe::StatusUnavailable, status("a", true, true)];
    assert!(matches!(inspect(false, &RepositoryProbe::Submodules(first())), Ok(None)));
    assert!(matches!(
        inspect(true, &RepositoryProbe::Submodules(first())),
        Err(CheckError::StatusQuery)
    ));
}

#[test]
fn no_submodules_give_an_empty_diagnostic() {
    for strict in [false, true] {
        let diagnostic = diagnostic_of(strict, vec![]);
        assert!(diagnostic.modified_not_staged_submodules.is_empty());
        assert!(diagnostic.modified_staged_submodules.is_empty());
    }
}

#[test]
fn unmodified_submodule_is_not_reported() {
    let diagnostic = diagnostic_of(false, vec![status("clean", false, false)]);
    assert!(diagnostic.modified_not_staged_submodules.is_empty());
    assert!(diagnostic.modified_staged_submodules.is_empty());
}

#[test]
fn working_tree_change_is_reported_as_not_staged_only() {
    let diagnostic = diagnostic_of(false, vec![status("lib", true, false)]);
    assert_eq!(diagnostic.modified_not_staged_submodules, names(&["lib"]));
    assert_eq!(diagnostic.modified_staged_submodules, names(&[]));
}

#[test]
fn staged_change_is_reported_as_staged_only() {
    let diagnostic = diagnostic_of(false, vec![status("lib", false, true)]);
    assert_eq!(diagnostic.modified_not_staged_submodules, names(&[]));
    assert_eq!(diagnostic.modified_staged_submodules, names(&["lib"]));
}

#[test]
fn submodule_with_both_findings_is_reported_twice() {
    let diagnostic = diagnostic_of(true, vec![status("lib", true, true)]);
    assert_eq!(diagnostic.modified_not_staged_submodules, names(&["lib"]));
    assert_eq!(diagnostic.modified_staged_submodules, names(&["lib"]));
}

#[test]
fn unnamed_submodules_are_passed_over() {
    let diagnostic = diagnostic_of(
        true,
        vec![SubmoduleProbe::Unnamed, status("b", true, false), SubmoduleProbe::Unnamed],
    );
    assert_eq!(diagnostic.modified_not_staged_submodules, names(&["b"]));
    assert!(diagnostic.modified_staged_submodules.is_empty());
    let diagnostic = diagnostic_of(false, vec![SubmoduleProbe::Unnamed]);
    assert!(diagnostic.modified_not_staged_submodules.is_empty());
    assert!(diagnostic.modified_staged_submodules.is_empty());
}

#[test]
fn names_keep_the_order_of_the_listing() {
    let diagnostic = diagnostic_of(
        false,
        vec![
            status("d", true, false),
            status("a", false, true),
            status("c", true, true),
            status("b", false, false),
            status("e", true, false),
        ],
    );
    assert_eq!(diagnostic.modified_not_staged_submodules, names(&["d", "c", "e"]));
    assert_eq!(diagnostic.modified_staged_submodules, names(&["a", "c"]));
}

#[test]
fn bail_fails_only_in_a_strict_run() {
    assert!(matches!(bail(true, CheckError::SubmoduleList), Err(CheckError::SubmoduleList)));
    assert!(matches!(bail(true, CheckError::StatusQuery), Err(CheckError::StatusQuery)));
    assert!(matches!(bail(false, CheckError::RepoOpen), Ok(None)));
}

#[test]
fn each_error_has_its_message() {
    assert_eq!(CheckError::RepoOpen.message(), "Unable to open repository");
    assert_eq!(CheckError::SubmoduleList.message(), "Failed to list submodules.");
    assert_eq!(CheckError::StatusQuery.message(), "Failed to query submodule status.");
}
