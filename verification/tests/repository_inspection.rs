use git2::{IndexAddOption, Oid, Repository, Signature, SubmoduleIgnore};
use std::io::Write;
use std::path::Path;
use submodule_hook::check_submodules::{
    check_submodules, probe_repository, CheckError, RepositoryProbe, SubmoduleProbe,
};
use submodule_hook::config::{
    get_config, read_global_config, read_local_config, read_repository_config, EffectiveConfig,
    HookConfig,
};
use submodule_hook::outcome::{run_checks, Pending, ProgramOutcome};
use tempfile::TempDir;

// ========== Helpers ==========

/// Writes a file called `name` with `content` into `dir`.
fn write_file(dir: &Path, name: &str, content: &str) -> anyhow::Result<()> {
    let mut file = tempfile::Builder::new()
        .prefix(name)
        .rand_bytes(0)
        .tempfile_in(dir)?;
    file.write_all(content.as_bytes())?;
    file.keep()?;
    Ok(())
}

/// Creates a temporary git repository with an initial commit.
/// The `TempDir` must be kept alive for the repository to remain valid.
fn create_temp_repo() -> anyhow::Result<(TempDir, Repository)> {
    let temp_dir = TempDir::new()?;
    let temp_path = temp_dir.path().to_path_buf();
    let repo = Repository::init(&temp_path)?;

    // An initial commit is required for submodule operations.
    let sig = Signature::now("Test User", "test@example.com")?;
    let tree_id = {
        let mut index = repo.index()?;
        write_file(&temp_path, "README.md", "# Test Repository\n")?;
        index.add_path(Path::new("README.md"))?;
        index.write()?;
        index.write_tree()?
    };
    let tree = repo.find_tree(tree_id)?;
    repo.commit(Some("HEAD"), &sig, &sig, "Initial commit", &tree, &[])?;
    drop(tree);

    Ok((temp_dir, repo))
}

/// Creates a commit in the given repository with a new file.
fn create_commit(repo: &Repository, message: &str) -> anyhow::Result<Oid> {
    let sig = Signature::now("Test User", "test@example.com")?;

    let file_name = format!("file_{}.txt", message.replace(' ', "_"));
    write_file(
        repo.workdir().unwrap(),
        &file_name,
        &format!("Content for {}", message),
    )?;

    let mut index = repo.index()?;
    index.add_path(Path::new(&file_name))?;
    index.write()?;
    let tree_id = index.write_tree()?;
    let tree = repo.find_tree(tree_id)?;

    let parent_commit = repo.head()?.peel_to_commit()?;
    let oid = repo.commit(Some("HEAD"), &sig, &sig, message, &tree, &[&parent_commit])?;

    Ok(oid)
}

/// Adds a submodule to the parent repository and commits the addition.
/// The `TempDir` must be kept alive.
fn add_submodule(
    parent_repo: &Repository,
    submodule_name: &str,
) -> anyhow::Result<(TempDir, String)> {
    let (submodule_temp_dir, submodule_repo) = create_temp_repo()?;
    let submodule_path = submodule_temp_dir.path().to_path_buf();
    let submodule_url = format!("file://{}", submodule_path.display());

    let mut submodule = parent_repo.submodule(&submodule_url, Path::new(submodule_name), false)?;
    let _cloned_repo = submodule.clone(None)?;
    submodule.add_finalize()?;

    let sig = Signature::now("Test User", "test@example.com")?;
    let mut index = parent_repo.index()?;
    index.add_all(
        [".gitmodules", submodule_name].iter(),
        IndexAddOption::DEFAULT,
        None,
    )?;
    index.write()?;
    let tree_id = index.write_tree()?;
    let tree = parent_repo.find_tree(tree_id)?;
    let parent_commit = parent_repo.head()?.peel_to_commit()?;
    parent_repo.commit(
        Some("HEAD"),
        &sig,
        &sig,
        &format!("Add submodule {}", submodule_name),
        &tree,
        &[&parent_commit],
    )?;
    drop(tree);
    drop(submodule_repo);

    Ok((submodule_temp_dir, submodule_name.to_string()))
}

/// Creates a commit inside the submodule: the submodule is then modified
/// but not staged in the parent.
fn modify_submodule_wd(parent_repo: &Repository, submodule_name: &str) -> anyhow::Result<()> {
    let submodule_path = parent_repo.workdir().unwrap().join(submodule_name);
    let submodule_repo = Repository::open(&submodule_path)?;
    create_commit(&submodule_repo, "Submodule modification")?;
    Ok(())
}

/// Stages the submodule's change in the parent repository's index.
fn stage_submodule(parent_repo: &Repository, submodule_name: &str) -> anyhow::Result<()> {
    let mut index = parent_repo.index()?;
    index.add_path(Path::new(submodule_name))?;
    index.write()?;
    Ok(())
}

fn settings(strict: bool, confirm_staging: bool, confirm_not_staging: bool) -> EffectiveConfig {
    EffectiveConfig { strict, confirm_staging, confirm_not_staging }
}

// ========== Tests for the helpers ==========

#[test]
fn test_create_temp_repo() {
    let result = create_temp_repo();
    assert!(result.is_ok());

    let (_temp_dir, repo) = result.unwrap();

    assert!(!repo.is_bare());
    assert!(repo.head().is_ok());

    let head = repo.head().unwrap();
    let commit = head.peel_to_commit().unwrap();
    assert_eq!(commit.message().unwrap(), "Initial commit");
}

#[test]
fn test_create_commit() {
    let (_temp_dir, repo) = create_temp_repo().unwrap();

    let result = create_commit(&repo, "Test commit");
    assert!(result.is_ok());

    let commit = repo.head().unwrap().peel_to_commit().unwrap();
    assert_eq!(commit.message().unwrap(), "Test commit");
}

#[test]
fn test_add_submodule() {
    let (_parent_temp_dir, parent_repo) = create_temp_repo().unwrap();

    let result = add_submodule(&parent_repo, "test-submodule");
    assert!(result.is_ok());

    let (_submodule_temp_dir, submodule_name) = result.unwrap();

    let submodules = parent_repo.submodules().unwrap();
    assert_eq!(submodules.len(), 1);
    assert_eq!(submodules[0].name().unwrap(), submodule_name);

    let submodule_path = parent_repo.workdir().unwrap().join(&submodule_name);
    assert!(submodule_path.exists());
}

#[test]
fn test_modify_submodule_wd() {
    let (_parent_temp_dir, parent_repo) = create_temp_repo().unwrap();
    let (_submodule_temp_dir, submodule_name) =
        add_submodule(&parent_repo, "test-submodule").unwrap();

    let result = modify_submodule_wd(&parent_repo, &submodule_name);
    assert!(result.is_ok());

    let status = parent_repo
        .submodule_status(&submodule_name, SubmoduleIgnore::None)
        .unwrap();
    assert!(status.is_wd_modified());
}

#[test]
fn test_stage_submodule() {
    let (_parent_temp_dir, parent_repo) = create_temp_repo().unwrap();
    let (_submodule_temp_dir, submodule_name) =
        add_submodule(&parent_repo, "test-submodule").unwrap();

    modify_submodule_wd(&parent_repo, &submodule_name).unwrap();

    let result = stage_submodule(&parent_repo, &submodule_name);
    assert!(result.is_ok());

    let status = parent_repo
        .submodule_status(&submodule_name, SubmoduleIgnore::None)
        .unwrap();
    assert!(status.is_index_modified());
}

// ========== Tests for check_submodules ==========

#[test]
fn test_no_submodules() {
    let (_temp_dir, repo) = create_temp_repo().unwrap();
    let repo_path = repo.workdir().unwrap().to_path_buf();

    let result = check_submodules(false, &repo_path);
    assert!(result.is_ok());

    let diagnostic = result.unwrap();
    assert!(diagnostic.is_some());

    let diagnostic = diagnostic.unwrap();
    assert!(diagnostic.modified_not_staged_submodules.is_empty());
    assert!(diagnostic.modified_staged_submodules.is_empty());
}

#[test]
fn test_unmodified_submodules() {
    let (_parent_temp_dir, parent_repo) = create_temp_repo().unwrap();
    let (_submodule_temp_dir, _submodule_name) =
        add_submodule(&parent_repo, "clean-submodule").unwrap();

    let repo_path = parent_repo.workdir().unwrap().to_path_buf();
    let result = check_submodules(false, &repo_path);
    assert!(result.is_ok());

    let diagnostic = result.unwrap().unwrap();
    assert!(diagnostic.modified_not_staged_submodules.is_empty());
    assert!(diagnostic.modified_staged_submodules.is_empty());
}

#[test]
fn test_modified_not_staged_submodule() {
    let (_parent_temp_dir, parent_repo) = create_temp_repo().unwrap();
    let (_submodule_temp_dir, submodule_name) =
        add_submodule(&parent_repo, "modified-submodule").unwrap();

    modify_submodule_wd(&parent_repo, &submodule_name).unwrap();

    let repo_path = parent_repo.workdir().unwrap().to_path_buf();
    let result = check_submodules(false, &repo_path);
    assert!(result.is_ok());

    let diagnostic = result.unwrap().unwrap();
    assert_eq!(diagnostic.modified_not_staged_submodules.len(), 1);
    assert_eq!(diagnostic.modified_not_staged_submodules[0], submodule_name);
    assert!(diagnostic.modified_staged_submodules.is_empty());
}

#[test]
fn test_modified_staged_submodule() {
    let (_parent_temp_dir, parent_repo) = create_temp_repo().unwrap();
    let (_submodule_temp_dir, submodule_name) =
        add_submodule(&parent_repo, "staged-submodule").unwrap();

    modify_submodule_wd(&parent_repo, &submodule_name).unwrap();
    stage_submodule(&parent_repo, &submodule_name).unwrap();

    let repo_path = parent_repo.workdir().unwrap().to_path_buf();
    let result = check_submodules(false, &repo_path);
    assert!(result.is_ok());

    let diagnostic = result.unwrap().unwrap();
    assert!(diagnostic.modified_not_staged_submodules.is_empty());
    assert_eq!(diagnostic.modified_staged_submodules.len(), 1);
    assert_eq!(diagnostic.modified_staged_submodules[0], submodule_name);
}

#[test]
fn test_both_modified_submodules() {
    let (_parent_temp_dir, parent_repo) = create_temp_repo().unwrap();

    let (_submodule1_temp_dir, submodule1_name) =
        add_submodule(&parent_repo, "submodule1").unwrap();
    modify_submodule_wd(&parent_repo, &submodule1_name).unwrap();

    let (_submodule2_temp_dir, submodule2_name) =
        add_submodule(&parent_repo, "submodule2").unwrap();
    modify_submodule_wd(&parent_repo, &submodule2_name).unwrap();
    stage_submodule(&parent_repo, &submodule2_name).unwrap();

    let repo_path = parent_repo.workdir().unwrap().to_path_buf();
    let result = check_submodules(false, &repo_path);
    assert!(result.is_ok());

    let diagnostic = result.unwrap().unwrap();
    assert_eq!(diagnostic.modified_not_staged_submodules.len(), 1);
    assert_eq!(
        diagnostic.modified_not_staged_submodules[0],
        submodule1_name
    );
    assert_eq!(diagnostic.modified_staged_submodules.len(), 1);
    assert_eq!(diagnostic.modified_staged_submodules[0], submodule2_name);
}

#[test]
fn test_strict_mode_invalid_repo() {
    let temp_dir = TempDir::new().unwrap();
    let invalid_path = temp_dir.path().to_path_buf();

    let result = check_submodules(true, &invalid_path);
    assert!(result.is_err());
    assert!(result
        .unwrap_err()
        .message()
        .contains("Unable to open repository"));
}

#[test]
fn test_non_strict_mode_invalid_repo() {
    let temp_dir = TempDir::new().unwrap();
    let invalid_path = temp_dir.path().to_path_buf();

    let result = check_submodules(false, &invalid_path);
    assert!(result.is_ok());
    assert!(result.unwrap().is_none());
}

// ========== Probing and whole runs on real repositories ==========

#[test]
fn probe_of_missing_repository_is_unopenable() {
    let temp_dir = TempDir::new().unwrap();
    let invalid_path = temp_dir.path().to_path_buf();
    assert_eq!(probe_repository(&invalid_path), RepositoryProbe::Unopenable);
}

#[test]
fn probe_reports_name_and_both_facts() {
    let (_parent_temp_dir, parent_repo) = create_temp_repo().unwrap();
    let (_submodule_temp_dir, name) = add_submodule(&parent_repo, "lib").unwrap();
    let repo_path = parent_repo.workdir().unwrap().to_path_buf();

    assert_eq!(
        probe_repository(&repo_path),
        RepositoryProbe::Submodules(vec![SubmoduleProbe::Status {
            name: name.clone(),
            wd_modified: false,
            index_modified: false,
        }])
    );

    modify_submodule_wd(&parent_repo, &name).unwrap();
    assert_eq!(
        probe_repository(&repo_path),
        RepositoryProbe::Submodules(vec![SubmoduleProbe::Status {
            name: name.clone(),
            wd_modified: true,
            index_modified: false,
        }])
    );

    stage_submodule(&parent_repo, &name).unwrap();
    assert_eq!(
        probe_repository(&repo_path),
        RepositoryProbe::Submodules(vec![SubmoduleProbe::Status {
            name: name.clone(),
            wd_modified: false,
            index_modified: true,
        }])
    );
}

#[test]
fn strict_mode_error_is_repo_open() {
    let temp_dir = TempDir::new().unwrap();
    let invalid_path = temp_dir.path().to_path_buf();
    assert_eq!(
        check_submodules(true, &invalid_path).unwrap_err(),
        CheckError::RepoOpen
    );
}

#[test]
fn run_on_invalid_repository_follows_strictness() {
    let temp_dir = TempDir::new().unwrap();
    let invalid_path = temp_dir.path().to_path_buf();

    let lenient = run_checks(&settings(false, true, true), &invalid_path);
    assert!(matches!(lenient, Pending::Clear));
    assert_eq!(lenient.notice(), None);
    let outcome = lenient.conclude(None);
    assert_eq!(outcome, ProgramOutcome::NoConfirmationNeeded);
    assert_eq!(outcome.to_exit_code(), 0);

    let strict = run_checks(&settings(true, true, true), &invalid_path);
    assert!(matches!(strict, Pending::Failed(CheckError::RepoOpen)));
    assert_eq!(
        strict.notice(),
        Some("Submodule check error: Unable to open repository".to_string())
    );
    let outcome = strict.conclude(Some(true));
    assert_eq!(outcome, ProgramOutcome::CheckError);
    assert_eq!(outcome.to_exit_code(), 3);
}

#[test]
fn run_without_confirmations_does_not_inspect() {
    let temp_dir = TempDir::new().unwrap();
    let invalid_path = temp_dir.path().to_path_buf();
    let pending = run_checks(&settings(true, false, false), &invalid_path);
    assert!(matches!(pending, Pending::Clear));
    assert_eq!(pending.conclude(None).to_exit_code(), 0);
}

#[test]
fn run_on_repository_without_submodules_never_asks() {
    let (_temp_dir, repo) = create_temp_repo().unwrap();
    let repo_path = repo.workdir().unwrap().to_path_buf();
    for strict in [false, true] {
        let pending = run_checks(&settings(strict, true, true), &repo_path);
        assert!(matches!(pending, Pending::Clear));
        assert_eq!(
            pending.conclude(Some(false)),
            ProgramOutcome::NoConfirmationNeeded
        );
    }
}

#[test]
fn scenario_unstaged_change_is_declined() {
    let (_parent_temp_dir, parent_repo) = create_temp_repo().unwrap();
    let (_submodule_temp_dir, name) = add_submodule(&parent_repo, "lib").unwrap();
    modify_submodule_wd(&parent_repo, &name).unwrap();
    let repo_path = parent_repo.workdir().unwrap().to_path_buf();

    let cli = HookConfig {
        strict: None,
        confirm_staging: Some(true),
        confirm_not_staging: Some(true),
    };
    let config = HookConfig::resolve(&cli, &HookConfig::default(), &HookConfig::default());
    let pending = run_checks(&config, &repo_path);
    match &pending {
        Pending::Question(diagnostic) => {
            assert_eq!(diagnostic.modified_not_staged_submodules, vec!["lib".to_string()]);
            assert!(diagnostic.modified_staged_submodules.is_empty());
        }
        other => panic!("expected the question, got {:?}", other),
    }
    let outcome = pending.conclude(Some(false));
    assert_eq!(outcome.to_exit_code(), 1);
}

#[test]
fn scenario_staged_change_is_confirmed() {
    let (_parent_temp_dir, parent_repo) = create_temp_repo().unwrap();
    let (_submodule_temp_dir, name) = add_submodule(&parent_repo, "lib").unwrap();
    modify_submodule_wd(&parent_repo, &name).unwrap();
    stage_submodule(&parent_repo, &name).unwrap();
    let repo_path = parent_repo.workdir().unwrap().to_path_buf();

    let pending = run_checks(&settings(false, true, true), &repo_path);
    match &pending {
        Pending::Question(diagnostic) => {
            assert!(diagnostic.modified_not_staged_submodules.is_empty());
            assert_eq!(diagnostic.modified_staged_submodules, vec!["lib".to_string()]);
        }
        other => panic!("expected the question, got {:?}", other),
    }
    let outcome = pending.conclude(Some(true));
    assert_eq!(outcome.to_exit_code(), 0);
}

#[test]
fn staged_change_is_ignored_where_only_unstaged_ones_count() {
    let (_parent_temp_dir, parent_repo) = create_temp_repo().unwrap();
    let (_submodule_temp_dir, name) = add_submodule(&parent_repo, "lib").unwrap();
    modify_submodule_wd(&parent_repo, &name).unwrap();
    stage_submodule(&parent_repo, &name).unwrap();
    let repo_path = parent_repo.workdir().unwrap().to_path_buf();

    let pending = run_checks(&settings(false, false, true), &repo_path);
    assert!(matches!(pending, Pending::Clear));
}

// ========== Settings read from git's configuration ==========

#[test]
fn repository_settings_are_read_from_its_configuration() {
    let (_temp_dir, repo) = create_temp_repo().unwrap();
    let repo_path = repo.workdir().unwrap().to_path_buf();
    let mut store = repo.config().unwrap();
    store.set_str("submodulehook.strict", "true").unwrap();
    store.set_str("submodulehook.staging", "false").unwrap();
    store.set_str("submodulehook.notstaging", "yes").unwrap();

    assert_eq!(
        read_repository_config(&repo_path),
        HookConfig {
            strict: Some(true),
            confirm_staging: Some(false),
            confirm_not_staging: Some(false),
        }
    );
}

#[test]
fn repository_settings_may_be_set_one_by_one() {
    let (_temp_dir, repo) = create_temp_repo().unwrap();
    let repo_path = repo.workdir().unwrap().to_path_buf();
    let before = read_repository_config(&repo_path);
    let mut store = repo.config().unwrap();
    store.set_str("submodulehook.notstaging", "true").unwrap();

    let after = read_repository_config(&repo_path);
    assert_eq!(after.confirm_not_staging, Some(true));
    assert_eq!(after.strict, before.strict);
    assert_eq!(after.confirm_staging, before.confirm_staging);
}

#[test]
fn missing_repository_has_no_settings() {
    let temp_dir = TempDir::new().unwrap();
    let invalid_path = temp_dir.path().to_path_buf();
    assert_eq!(read_repository_config(&invalid_path), HookConfig::default());
}

#[test]
fn git_settings_are_the_local_ones_over_the_global_ones() {
    let global = read_global_config();
    let local = read_local_config();
    assert_eq!(get_config(), local.or(&global));
}

#[test]
fn probe_of_repository_without_submodules_is_empty() {
    let (_temp_dir, repo) = create_temp_repo().unwrap();
    let repo_path = repo.workdir().unwrap().to_path_buf();
    assert_eq!(probe_repository(&repo_path), RepositoryProbe::Submodules(vec![]));
}
