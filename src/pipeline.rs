//! The build pipeline as a state machine. The caller performs each action it
//! is handed (reading files, asking the repository, prompting, walking the
//! tree, writing the archive) and reports back what came of it as an event;
//! every decision is taken here.

use vstd::prelude::*;
use crate::manifest::{Manifest, ManifestError, RawManifest, load_manifest, manifest_problem};
use crate::ignore::{IgnorePolicy, parse_ignore_list, ignore_entries, string_views};
use crate::walk::{ArchiveEntry, Candidate, entry_view, rejected, rejects, select_entries, selection};

verus! {

/// Question put to the user when the archive already exists.
pub const OVERWRITE_PROMPT: &'static str = "Zip file already exists. Overwrite?";

/// Switches of one build.
#[derive(Clone, Copy, Debug, PartialEq, Eq, Structural)]
pub struct BuildOptions {
    /// Build even when the working tree has uncommitted or untracked changes.
    pub allow_dirty: bool,
    /// Overwrite an existing archive without asking.
    pub auto_yes: bool,
}

/// What the caller learned of the project's repository.
#[derive(Clone, Copy, Debug, PartialEq, Eq, Structural)]
pub enum RepoStatus {
    /// There is no repository at the project root.
    NotFound,
    /// No uncommitted or untracked changes.
    Clean,
    /// Uncommitted or untracked changes exist.
    Dirty,
    /// The repository exists but its status could not be read.
    Unreadable,
    /// The repository exists; its status was not asked for.
    Unchecked,
}

/// Why a build stopped.
#[derive(Debug, PartialEq, Eq)]
pub enum BuildError {
    Manifest(ManifestError),
    RepositoryNotFound,
    RepositoryDirty,
    RepositoryStatusUnavailable,
    /// Reading the ignore-list file or the tree, or creating the target
    /// directory, failed.
    Io(String),
    /// Writing the archive failed.
    ArchiveWrite(String),
    /// An event that does not answer the pending action.
    UnexpectedEvent,
}

/// How a build ended.
#[derive(Debug, PartialEq, Eq)]
pub enum Outcome {
    /// The archive was written.
    Built,
    /// The user declined to overwrite the existing archive; not an error.
    Canceled,
    Failed(BuildError),
}

/// Where a build stands.
pub enum Stage {
    LoadManifest,
    CheckRepo(Manifest),
    ResolveIgnore(Manifest),
    CheckCollision(Manifest, IgnorePolicy),
    Confirm(Manifest, IgnorePolicy),
    Walk(Manifest, IgnorePolicy),
    WriteArchive(Manifest),
    Done,
}

/// What the caller reports back.
pub enum Event {
    /// The manifest's fields, or why the file could not be read or parsed.
    ManifestRead(Result<RawManifest, ManifestError>),
    RepositoryChecked(RepoStatus),
    /// The ignore-list file's text, if the project has one; or why it could
    /// not be read.
    IgnoreFileRead(Result<Option<String>, String>),
    /// Whether the archive file already exists, once the target directory
    /// exists; or why the target directory could not be created.
    OutputInspected(Result<bool, String>),
    /// The user's answer to the overwrite prompt.
    Answered(bool),
    /// Every path below the project root that the walk reached.
    Walked(Result<Vec<Candidate>, String>),
    ArchiveWritten(Result<(), String>),
}

/// What the caller is to do next.
pub enum Action {
    /// Read `manifest.toml` in the project root.
    ReadManifest,
    /// Open the repository at the project root and, if asked, read whether it
    /// has uncommitted or untracked changes.
    CheckRepository { check_status: bool },
    /// Read the ignore-list file, if there is one.
    ReadIgnoreFile,
    /// Create `directory` (relative to the project root) if missing, then
    /// report whether `file_name` exists in it.
    InspectOutput { directory: String, file_name: String },
    /// Ask the user `OVERWRITE_PROMPT`.
    AskOverwrite,
    /// Walk the project tree below its root, leaving out the paths for which
    /// `Build::leaves_out` holds and not descending into such directories.
    /// `consult_vcs`: fill in each path's `vcs_ignored` from the repository.
    WalkTree { consult_vcs: bool },
    /// Write the archive `directory/file_name`: one record per entry, in
    /// order, directories as directory records and files stored uncompressed.
    WriteArchive { directory: String, file_name: String, entries: Vec<ArchiveEntry> },
    /// The build is over.
    Finish(Outcome),
    /// Nothing is left to do.
    Stop,
}

/// One build from start to end.
pub struct Build {
    pub options: BuildOptions,
    pub stage: Stage,
}

/// The archive's file name: `{name}@{version}.zip`.
pub open spec fn archive_name(m: Manifest) -> Seq<char> {
    m.name@ + seq!['@'] + m.version@ + seq!['.', 'z', 'i', 'p']
}

/// The failure that the repository's status means under `o`, if any.
pub open spec fn repo_problem(o: BuildOptions, st: RepoStatus) -> Option<BuildError> {
    match st {
        RepoStatus::NotFound => Some(BuildError::RepositoryNotFound),
        RepoStatus::Dirty => if o.allow_dirty { None } else { Some(BuildError::RepositoryDirty) },
        RepoStatus::Unreadable | RepoStatus::Unchecked => if o.allow_dirty {
            None
        } else {
            Some(BuildError::RepositoryStatusUnavailable)
        },
        RepoStatus::Clean => None,
    }
}

/// The manifest that loading `raw` gives.
pub open spec fn loaded_from(m: Manifest, raw: RawManifest) -> bool {
    &&& m.name == raw.name->0
    &&& m.version == raw.version->0
    &&& m.authors == raw.authors
    &&& m.dependencies == raw.dependencies
    &&& match raw.target {
        Some(t) => m.target == t,
        None => m.target@ == crate::manifest::DEFAULT_TARGET@,
    }
}

/// The policy that the ignore-list file's text (or its absence) gives:
/// the file's prefixes, or the version-control engine without one.
pub open spec fn policy_from(p: IgnorePolicy, file: Option<String>) -> bool {
    match file {
        Some(text) => p matches IgnorePolicy::Prefixes(ps) && string_views(ps@) == ignore_entries(text@),
        None => p is Vcs,
    }
}

pub open spec fn walk_action(p: IgnorePolicy) -> Action {
    Action::WalkTree { consult_vcs: p is Vcs }
}

pub open spec fn fails_with(t: Stage, a: Action, err: BuildError) -> bool {
    t is Done && a == Action::Finish(Outcome::Failed(err))
}

/// The action that asks about the archive of `m`.
pub open spec fn inspect_action(a: Action, m: Manifest) -> bool {
    match a {
        Action::InspectOutput { directory, file_name } => directory == m.target && file_name@
            == archive_name(m),
        _ => false,
    }
}

/// The action that writes the archive of `m` from a walk that yielded `cands`.
pub open spec fn write_action(a: Action, m: Manifest, p: IgnorePolicy, cands: Vec<Candidate>) -> bool {
    match a {
        Action::WriteArchive { directory, file_name, entries } => {
            &&& directory == m.target
            &&& file_name@ == archive_name(m)
            &&& entries@.map_values(|x: ArchiveEntry| entry_view(x)) == selection(p, m.target@, cands@)
        },
        _ => false,
    }
}

/// One step of a build under options `o`: from stage `s`, event `e` leads to
/// stage `t` and action `a`.
pub open spec fn transition(o: BuildOptions, s: Stage, e: Event, t: Stage, a: Action) -> bool {
    match s {
        Stage::LoadManifest => match e {
            Event::ManifestRead(Err(err)) => fails_with(t, a, BuildError::Manifest(err)),
            Event::ManifestRead(Ok(raw)) => match manifest_problem(raw) {
                Some(err) => fails_with(t, a, BuildError::Manifest(err)),
                None => t matches Stage::CheckRepo(m) && loaded_from(m, raw) && a
                    == Action::CheckRepository { check_status: !o.allow_dirty },
            },
            _ => fails_with(t, a, BuildError::UnexpectedEvent),
        },
        Stage::CheckRepo(m) => match e {
            Event::RepositoryChecked(st) => match repo_problem(o, st) {
                Some(err) => fails_with(t, a, err),
                None => t == Stage::ResolveIgnore(m) && a == Action::ReadIgnoreFile,
            },
            _ => fails_with(t, a, BuildError::UnexpectedEvent),
        },
        Stage::ResolveIgnore(m) => match e {
            Event::IgnoreFileRead(Err(msg)) => fails_with(t, a, BuildError::Io(msg)),
            Event::IgnoreFileRead(Ok(file)) => match t {
                Stage::CheckCollision(m2, p) => m2 == m && policy_from(p, file) && inspect_action(a, m),
                _ => false,
            },
            _ => fails_with(t, a, BuildError::UnexpectedEvent),
        },
        Stage::CheckCollision(m, p) => match e {
            Event::OutputInspected(Err(msg)) => fails_with(t, a, BuildError::Io(msg)),
            Event::OutputInspected(Ok(found)) => if found && !o.auto_yes {
                t == Stage::Confirm(m, p) && a == Action::AskOverwrite
            } else {
                t == Stage::Walk(m, p) && a == walk_action(p)
            },
            _ => fails_with(t, a, BuildError::UnexpectedEvent),
        },
        Stage::Confirm(m, p) => match e {
            Event::Answered(yes) => if yes {
                t == Stage::Walk(m, p) && a == walk_action(p)
            } else {
                t is Done && a == Action::Finish(Outcome::Canceled)
            },
            _ => fails_with(t, a, BuildError::UnexpectedEvent),
        },
        Stage::Walk(m, p) => match e {
            Event::Walked(Err(msg)) => fails_with(t, a, BuildError::Io(msg)),
            Event::Walked(Ok(cands)) => t == Stage::WriteArchive(m) && write_action(a, m, p, cands),
            _ => fails_with(t, a, BuildError::UnexpectedEvent),
        },
        Stage::WriteArchive(m) => match e {
            Event::ArchiveWritten(Ok(())) => t is Done && a == Action::Finish(Outcome::Built),
            Event::ArchiveWritten(Err(msg)) => fails_with(t, a, BuildError::ArchiveWrite(msg)),
            _ => fails_with(t, a, BuildError::UnexpectedEvent),
        },
        Stage::Done => t is Done && a == Action::Stop,
    }
}

/// A manifest that fails validation ends the build at once with that
/// failure: the output is neither inspected nor written.
pub proof fn invalid_manifest_stops_build(o: BuildOptions, raw: RawManifest, t: Stage, a: Action)
    requires
        transition(o, Stage::LoadManifest, Event::ManifestRead(Ok(raw)), t, a),
        manifest_problem(raw) is Some,
    ensures
        t is Done,
        a == Action::Finish(Outcome::Failed(BuildError::Manifest(manifest_problem(raw)->0))),
{
}

/// Declining to overwrite an existing archive ends the build as canceled,
/// which is not a failure: the step hands out no write, and the build stops.
pub proof fn declined_overwrite_cancels(
    o: BuildOptions,
    m: Manifest,
    p: IgnorePolicy,
    t: Stage,
    a: Action,
)
    requires
        transition(o, Stage::Confirm(m, p), Event::Answered(false), t, a),
    ensures
        t is Done,
        a == Action::Finish(Outcome::Canceled),
        !(a is WriteArchive),
{
}

/// A finished build stays finished and hands out no further action, so in
/// particular never writes an archive.
pub proof fn finished_build_does_nothing(o: BuildOptions, e: Event, t: Stage, a: Action)
    requires
        transition(o, Stage::Done, e, t, a),
    ensures
        t is Done,
        a is Stop,
{
}

/// The overwrite question is only put when the archive exists and
/// `auto_yes` is off.
pub proof fn prompt_only_on_collision(
    o: BuildOptions,
    m: Manifest,
    p: IgnorePolicy,
    found: bool,
    t: Stage,
    a: Action,
)
    requires
        transition(o, Stage::CheckCollision(m, p), Event::OutputInspected(Ok(found)), t, a),
    ensures
        a is AskOverwrite <==> found && !o.auto_yes,
{
}

/// The archive's file name for a manifest.
pub fn archive_file_name(m: &Manifest) -> (r: String)
    ensures
        r@ == archive_name(*m),
{
    let mut r = m.name.clone();
    r.append("@");
    r.append(m.version.as_str());
    r.append(".zip");
    proof {
        reveal_strlit("@");
        reveal_strlit(".zip");
    }
    r
}

/// Whether a build goes on past an existing archive: always when there is
/// none or `auto_yes` is set; otherwise as the user answers (`confirm`,
/// asked only in that case).
pub fn resolve_collision(output_exists: bool, auto_yes: bool, confirm: Option<bool>) -> (r: bool)
    ensures
        r == (!output_exists || auto_yes || confirm == Some(true)),
{
    if !output_exists || auto_yes {
        true
    } else {
        match confirm {
            Some(answer) => answer,
            None => false,
        }
    }
}

fn repo_check(o: BuildOptions, st: RepoStatus) -> (r: Option<BuildError>)
    ensures
        r == repo_problem(o, st),
{
    match st {
        RepoStatus::NotFound => Some(BuildError::RepositoryNotFound),
        RepoStatus::Dirty => if o.allow_dirty {
            None
        } else {
            Some(BuildError::RepositoryDirty)
        },
        RepoStatus::Unreadable | RepoStatus::Unchecked => if o.allow_dirty {
            None
        } else {
            Some(BuildError::RepositoryStatusUnavailable)
        },
        RepoStatus::Clean => None,
    }
}

fn fail(err: BuildError) -> (r: (Stage, Action))
    ensures
        fails_with(r.0, r.1, err),
{
    (Stage::Done, Action::Finish(Outcome::Failed(err)))
}

fn walk_tree(p: &IgnorePolicy) -> (a: Action)
    ensures
        a == walk_action(*p),
{
    Action::WalkTree { consult_vcs: matches!(p, IgnorePolicy::Vcs) }
}

impl Build {
    /// A build with the given options, and its first action.
    pub fn new(options: BuildOptions) -> (r: (Build, Action))
        ensures
            r.0.options == options,
            r.0.stage is LoadManifest,
            r.1 is ReadManifest,
    {
        (Build { options, stage: Stage::LoadManifest }, Action::ReadManifest)
    }

    /// Whether the pending walk leaves `c` out (and does not descend into it):
    /// `c` is the target directory or the repository's directory or lies in
    /// one of them, or the ignore policy excludes it. Outside a walk, nothing
    /// is left out.
    pub fn leaves_out(&self, c: &Candidate) -> (r: bool)
        ensures
            r == match self.stage {
                Stage::Walk(m, p) => rejected(p, m.target@, *c),
                _ => false,
            },
    {
        match &self.stage {
            Stage::Walk(m, p) => rejects(p, m.target.as_str(), c),
            _ => false,
        }
    }

    /// Takes the build one step further on `event`.
    pub fn step(self, event: Event) -> (r: (Build, Action))
        ensures
            r.0.options == self.options,
            transition(self.options, self.stage, event, r.0.stage, r.1),
    {
        let o = self.options;
        let (stage, action) = match self.stage {
            Stage::LoadManifest => match event {
                Event::ManifestRead(Err(err)) => fail(BuildError::Manifest(err)),
                Event::ManifestRead(Ok(raw)) => match load_manifest(raw) {
                    Err(err) => fail(BuildError::Manifest(err)),
                    Ok(m) => (
                        Stage::CheckRepo(m),
                        Action::CheckRepository { check_status: !o.allow_dirty },
                    ),
                },
                _ => fail(BuildError::UnexpectedEvent),
            },
            Stage::CheckRepo(m) => match event {
                Event::RepositoryChecked(st) => match repo_check(o, st) {
                    Some(err) => fail(err),
                    None => (Stage::ResolveIgnore(m), Action::ReadIgnoreFile),
                },
                _ => fail(BuildError::UnexpectedEvent),
            },
            Stage::ResolveIgnore(m) => match event {
                Event::IgnoreFileRead(Err(msg)) => fail(BuildError::Io(msg)),
                Event::IgnoreFileRead(Ok(file)) => {
                    let p = match file {
                        Some(text) => IgnorePolicy::Prefixes(parse_ignore_list(text.as_str())),
                        None => IgnorePolicy::Vcs,
                    };
                    let directory = m.target.clone();
                    let file_name = archive_file_name(&m);
                    (Stage::CheckCollision(m, p), Action::InspectOutput { directory, file_name })
                },
                _ => fail(BuildError::UnexpectedEvent),
            },
            Stage::CheckCollision(m, p) => match event {
                Event::OutputInspected(Err(msg)) => fail(BuildError::Io(msg)),
                Event::OutputInspected(Ok(found)) => {
                    if found && !o.auto_yes {
                        (Stage::Confirm(m, p), Action::AskOverwrite)
                    } else {
                        let a = walk_tree(&p);
                        (Stage::Walk(m, p), a)
                    }
                },
                _ => fail(BuildError::UnexpectedEvent),
            },
            Stage::Confirm(m, p) => match event {
                Event::Answered(yes) => {
                    if resolve_collision(true, false, Some(yes)) {
                        let a = walk_tree(&p);
                        (Stage::Walk(m, p), a)
                    } else {
                        (Stage::Done, Action::Finish(Outcome::Canceled))
                    }
                },
                _ => fail(BuildError::UnexpectedEvent),
            },
            Stage::Walk(m, p) => match event {
                Event::Walked(Err(msg)) => fail(BuildError::Io(msg)),
                Event::Walked(Ok(cands)) => {
                    let entries = select_entries(&p, m.target.as_str(), &cands);
                    let directory = m.target.clone();
                    let file_name = archive_file_name(&m);
                    (Stage::WriteArchive(m), Action::WriteArchive { directory, file_name, entries })
                },
                _ => fail(BuildError::UnexpectedEvent),
            },
            Stage::WriteArchive(m) => match event {
                Event::ArchiveWritten(Ok(())) => (Stage::Done, Action::Finish(Outcome::Built)),
                Event::ArchiveWritten(Err(msg)) => fail(BuildError::ArchiveWrite(msg)),
                _ => fail(BuildError::UnexpectedEvent),
            },
            Stage::Done => (Stage::Done, Action::Stop),
        };
        (Build { options: o, stage }, action)
    }
}

} // verus!
