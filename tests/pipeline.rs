use customs::manifest::{Field, ManifestError, RawManifest};
use customs::pipeline::{
    archive_file_name, resolve_collision, Action, Build, BuildError, BuildOptions, Event, Outcome,
    RepoStatus, Stage,
};
use customs::walk::Candidate;

fn raw(name: &str, version: &str) -> RawManifest {
    RawManifest {
        name: Some(String::from(name)),
        version: Some(String::from(version)),
        authors: Vec::new(),
        target: None,
        dependencies: Vec::new(),
    }
}

fn cand(path: &str, is_dir: bool) -> Candidate {
    Candidate { path: String::from(path), is_dir, vcs_ignored: false }
}

fn opts(allow_dirty: bool, auto_yes: bool) -> BuildOptions {
    BuildOptions { allow_dirty, auto_yes }
}

/// Runs a build up to the overwrite question or the walk.
fn up_to_output(o: BuildOptions, ignore_file: Option<&str>, output_exists: bool) -> (Build, Action) {
    let (b, a) = Build::new(o);
    assert!(matches!(a, Action::ReadManifest));
    let (b, a) = b.step(Event::ManifestRead(Ok(raw("demo", "1.2.0"))));
    assert!(matches!(a, Action::CheckRepository { check_status } if check_status == !o.allow_dirty));
    let (b, a) = b.step(Event::RepositoryChecked(RepoStatus::Clean));
    assert!(matches!(a, Action::ReadIgnoreFile));
    let (b, a) = b.step(Event::IgnoreFileRead(Ok(ignore_file.map(String::from))));
    match &a {
        Action::InspectOutput { directory, file_name } => {
            assert_eq!(directory, "target");
            assert_eq!(file_name, "demo@1.2.0.zip");
        }
        _ => panic!("expected the output to be inspected"),
    }
    b.step(Event::OutputInspected(Ok(output_exists)))
}

fn finish(a: Action) -> Outcome {
    match a {
        Action::Finish(o) => o,
        _ => panic!("expected the build to finish"),
    }
}

#[test]
fn demo_scenario_builds_archive_without_ignored_entries() {
    let (b, a) = up_to_output(opts(false, false), Some("node_modules\n"), false);
    assert!(matches!(a, Action::WalkTree { consult_vcs: false }));
    assert!(b.leaves_out(&cand("node_modules", true)));
    assert!(b.leaves_out(&cand("target", true)));
    assert!(b.leaves_out(&cand(".git", true)));
    assert!(!b.leaves_out(&cand("src", true)));
    let cands = vec![
        cand(".git", true),
        cand(".git/config", false),
        cand("manifest.toml", false),
        cand("node_modules", true),
        cand("node_modules/x/index.js", false),
        cand("src", true),
        cand("src/main.luau", false),
    ];
    let (b, a) = b.step(Event::Walked(Ok(cands)));
    match &a {
        Action::WriteArchive { directory, file_name, entries } => {
            assert_eq!(directory, "target");
            assert_eq!(file_name, "demo@1.2.0.zip");
            let got: Vec<&str> = entries.iter().map(|e| e.path.as_str()).collect();
            assert_eq!(got, vec!["manifest.toml", "src", "src/main.luau"]);
            assert!(entries.iter().all(|e| !e.path.starts_with("node_modules")));
        }
        _ => panic!("expected the archive to be written"),
    }
    let (b, a) = b.step(Event::ArchiveWritten(Ok(())));
    assert_eq!(finish(a), Outcome::Built);
    assert!(matches!(b.stage, Stage::Done));
}

#[test]
fn two_version_components_fail_before_any_output() {
    let (b, _) = Build::new(opts(false, true));
    let (b, a) = b.step(Event::ManifestRead(Ok(raw("demo", "1.2"))));
    assert_eq!(
        finish(a),
        Outcome::Failed(BuildError::Manifest(ManifestError::FieldInvalid(Field::Version)))
    );
    let (_, a) = b.step(Event::OutputInspected(Ok(false)));
    assert!(matches!(a, Action::Stop));
}

#[test]
fn declined_overwrite_cancels_build() {
    let (b, a) = up_to_output(opts(false, false), None, true);
    assert!(matches!(a, Action::AskOverwrite));
    let (b, a) = b.step(Event::Answered(false));
    assert_eq!(finish(a), Outcome::Canceled);
    let (_, a) = b.step(Event::Walked(Ok(Vec::new())));
    assert!(matches!(a, Action::Stop));
}

#[test]
fn accepted_overwrite_walks_with_vcs() {
    let (b, a) = up_to_output(opts(false, false), None, true);
    assert!(matches!(a, Action::AskOverwrite));
    let (_, a) = b.step(Event::Answered(true));
    assert!(matches!(a, Action::WalkTree { consult_vcs: true }));
}

#[test]
fn auto_yes_skips_the_question() {
    let (_, a) = up_to_output(opts(false, true), None, true);
    assert!(matches!(a, Action::WalkTree { consult_vcs: true }));
}

#[test]
fn idempotent_entries_across_runs() {
    let run = |cands: Vec<Candidate>| -> Vec<String> {
        let (b, _) = up_to_output(opts(false, true), Some("tmp"), true);
        let (_, a) = b.step(Event::Walked(Ok(cands)));
        match a {
            Action::WriteArchive { entries, .. } => {
                let mut v: Vec<String> = entries.into_iter().map(|e| e.path).collect();
                v.sort();
                v
            }
            _ => panic!("expected the archive to be written"),
        }
    };
    let first = run(vec![cand("a", false), cand("tmp", true), cand("d", true), cand("d/e", false)]);
    let second = run(vec![cand("d/e", false), cand("d", true), cand("a", false), cand("tmp", true)]);
    assert_eq!(first, second);
    assert_eq!(first, vec!["a", "d", "d/e"]);
}

#[test]
fn repository_failures() {
    let step_repo = |o: BuildOptions, st: RepoStatus| {
        let (b, _) = Build::new(o);
        let (b, _) = b.step(Event::ManifestRead(Ok(raw("demo", "1.0.0"))));
        b.step(Event::RepositoryChecked(st)).1
    };
    assert_eq!(
        finish(step_repo(opts(false, false), RepoStatus::NotFound)),
        Outcome::Failed(BuildError::RepositoryNotFound)
    );
    assert_eq!(
        finish(step_repo(opts(true, false), RepoStatus::NotFound)),
        Outcome::Failed(BuildError::RepositoryNotFound)
    );
    assert_eq!(
        finish(step_repo(opts(false, false), RepoStatus::Dirty)),
        Outcome::Failed(BuildError::RepositoryDirty)
    );
    assert_eq!(
        finish(step_repo(opts(false, false), RepoStatus::Unreadable)),
        Outcome::Failed(BuildError::RepositoryStatusUnavailable)
    );
    assert!(matches!(step_repo(opts(true, false), RepoStatus::Dirty), Action::ReadIgnoreFile));
    assert!(matches!(step_repo(opts(true, false), RepoStatus::Unchecked), Action::ReadIgnoreFile));
}

#[test]
fn manifest_read_errors_fail_the_build() {
    let (b, _) = Build::new(opts(false, false));
    let (_, a) = b.step(Event::ManifestRead(Err(ManifestError::NotFound)));
    assert_eq!(finish(a), Outcome::Failed(BuildError::Manifest(ManifestError::NotFound)));
    let (b, _) = Build::new(opts(false, false));
    let (_, a) = b.step(Event::ManifestRead(Err(ManifestError::Parse(String::from("bad")))));
    assert_eq!(
        finish(a),
        Outcome::Failed(BuildError::Manifest(ManifestError::Parse(String::from("bad"))))
    );
}

#[test]
fn io_and_archive_failures() {
    let (b, _) = up_to_output(opts(false, true), None, false);
    let (_, a) = b.step(Event::Walked(Err(String::from("denied"))));
    assert_eq!(finish(a), Outcome::Failed(BuildError::Io(String::from("denied"))));

    let (b, _) = up_to_output(opts(false, true), None, false);
    let (b, _) = b.step(Event::Walked(Ok(Vec::new())));
    let (_, a) = b.step(Event::ArchiveWritten(Err(String::from("disk full"))));
    assert_eq!(finish(a), Outcome::Failed(BuildError::ArchiveWrite(String::from("disk full"))));

    let (b, _) = Build::new(opts(false, false));
    let (b, _) = b.step(Event::ManifestRead(Ok(raw("demo", "1.0.0"))));
    let (b, _) = b.step(Event::RepositoryChecked(RepoStatus::Clean));
    let (b, _) = b.step(Event::IgnoreFileRead(Ok(None)));
    let (_, a) = b.step(Event::OutputInspected(Err(String::from("no space"))));
    assert_eq!(finish(a), Outcome::Failed(BuildError::Io(String::from("no space"))));
}

#[test]
fn out_of_order_event_fails() {
    let (b, _) = Build::new(opts(false, false));
    let (_, a) = b.step(Event::Answered(true));
    assert_eq!(finish(a), Outcome::Failed(BuildError::UnexpectedEvent));
}

#[test]
fn collision_decision() {
    assert!(resolve_collision(false, false, None));
    assert!(resolve_collision(true, true, None));
    assert!(resolve_collision(true, false, Some(true)));
    assert!(!resolve_collision(true, false, Some(false)));
    assert!(!resolve_collision(true, false, None));
}

#[test]
fn archive_name_joins_name_and_version() {
    let m = customs::manifest::load_manifest(raw("demo", "1.2.0")).unwrap();
    assert_eq!(archive_file_name(&m), "demo@1.2.0.zip");
}

#[test]
fn unreadable_ignore_file_fails() {
    let (b, _) = Build::new(opts(false, false));
    let (b, _) = b.step(Event::ManifestRead(Ok(raw("demo", "1.0.0"))));
    let (b, _) = b.step(Event::RepositoryChecked(RepoStatus::Clean));
    let (_, a) = b.step(Event::IgnoreFileRead(Err(String::from("denied"))));
    assert_eq!(finish(a), Outcome::Failed(BuildError::Io(String::from("denied"))));
}
