//! The package manifest: the raw fields read from `manifest.toml` and their
//! validation into a `Manifest`.

use vstd::prelude::*;
use crate::text::{same_text, lemma_split_without_separator, is_ascii_alphanumeric, is_ascii_digit, lemma_split_prefix, lemma_split_step, split};

verus! {

/// Directory that receives the archive when the manifest names none.
pub const DEFAULT_TARGET: &'static str = "target";

/// A manifest field that validation reports on.
#[derive(Clone, Copy, Debug, PartialEq, Eq, Structural)]
pub enum Field {
    Name,
    Version,
    Target,
    Dependencies,
}

impl Field {
    pub open spec fn key(self) -> Seq<char> {
        match self {
            Field::Name => "name"@,
            Field::Version => "version"@,
            Field::Target => "target"@,
            Field::Dependencies => "dependencies"@,
        }
    }

    /// The field's key as written in the manifest.
    pub fn as_str(self) -> (r: &'static str)
        ensures
            r@ == self.key(),
    {
        match self {
            Field::Name => "name",
            Field::Version => "version",
            Field::Target => "target",
            Field::Dependencies => "dependencies",
        }
    }
}

/// Why a manifest could not be loaded.
#[derive(Debug, PartialEq, Eq)]
pub enum ManifestError {
    /// No manifest file in the project root.
    NotFound,
    /// The file is not a well-formed document; holds the parser's message.
    Parse(String),
    /// A required field is absent.
    FieldMissing(Field),
    /// A field is present but its value is not acceptable.
    FieldInvalid(Field),
}

/// The manifest's fields as found in the document, before validation.
pub struct RawManifest {
    pub name: Option<String>,
    pub version: Option<String>,
    pub authors: Vec<String>,
    pub target: Option<String>,
    /// Dependency name and version requirement.
    pub dependencies: Vec<(String, String)>,
}

/// A validated manifest. It is not changed after loading.
pub struct Manifest {
    pub name: String,
    pub version: String,
    pub authors: Vec<String>,
    /// Directory, relative to the project root, that receives the archive.
    pub target: String,
    /// Dependency name and version requirement; names are distinct.
    pub dependencies: Vec<(String, String)>,
}

impl Manifest {
    /// What loading guarantees of a manifest.
    pub open spec fn wf(self) -> bool {
        &&& valid_name(self.name@)
        &&& semver_version_accepts(self.version@)
        &&& valid_target(self.target@)
        &&& distinct_names(self.dependencies@)
        &&& requirements_valid(self.dependencies@)
    }
}

/// Whether semver's `Version::parse` accepts the text.
pub uninterp spec fn semver_version_accepts(text: Seq<char>) -> bool;

/// Whether semver's `VersionReq::parse` accepts the text.
pub uninterp spec fn semver_requirement_accepts(text: Seq<char>) -> bool;

/// Length of the run of ASCII digits that opens `s`.
pub open spec fn digit_run(s: Seq<char>) -> nat
    decreases s.len(),
{
    if s.len() > 0 && is_ascii_digit(s[0]) {
        1 + digit_run(s.drop_first())
    } else {
        0
    }
}

/// `s` opens with a non-empty run of digits followed by `.`; what follows the dot.
pub open spec fn after_number_dot(s: Seq<char>) -> Option<Seq<char>> {
    let n = digit_run(s);
    if 0 < n < s.len() && s[n as int] == '.' {
        Some(s.skip(n as int + 1))
    } else {
        None
    }
}

/// `s` opens with a non-empty run of digits that ends the text or is followed
/// by `-` (pre-release) or `+` (build metadata).
pub open spec fn last_number(s: Seq<char>) -> bool {
    let n = digit_run(s);
    0 < n && (n == s.len() || s[n as int] == '-' || s[n as int] == '+')
}

/// `s` has the shape `MAJOR.MINOR.PATCH`, optionally followed by a
/// pre-release or build suffix.
pub open spec fn numeric_core(s: Seq<char>) -> bool {
    match after_number_dot(s) {
        Some(t) => match after_number_dot(t) {
            Some(u) => last_number(u),
            None => false,
        },
        None => false,
    }
}

/// Relies on semver::Version::parse: accepts exactly the texts that
/// `semver_version_accepts` names, and reads three dot-separated runs of
/// ASCII digits before any `-` or `+` suffix, so accepted texts have that shape.
#[verifier::external_body]
fn version_parses(text: &str) -> (r: bool)
    ensures
        r == semver_version_accepts(text@),
        r ==> numeric_core(text@),
{
    semver::Version::parse(text).is_ok()
}

/// Relies on semver::VersionReq::parse: accepts exactly the texts that
/// `semver_requirement_accepts` names.
#[verifier::external_body]
fn requirement_parses(text: &str) -> (r: bool)
    ensures
        r == semver_requirement_accepts(text@),
{
    semver::VersionReq::parse(text).is_ok()
}

/// A package name: non-empty, ASCII letters and digits only, so that it can
/// stand in a file name.
pub open spec fn valid_name(s: Seq<char>) -> bool {
    s.len() > 0 && forall|i: int| 0 <= i < s.len() ==> is_ascii_alphanumeric(#[trigger] s[i])
}

pub open spec fn is_dir_name_char(c: char) -> bool {
    is_ascii_alphanumeric(c) || c == '_' || c == '-' || c == '.'
}

/// One segment of a target path: non-empty, of ASCII letters, digits, `_`,
/// `-` and `.`, and neither `.` nor `..`.
pub open spec fn valid_segment(g: Seq<char>) -> bool {
    &&& g.len() > 0
    &&& g != seq!['.']
    &&& g != seq!['.', '.']
    &&& forall|i: int| 0 <= i < g.len() ==> is_dir_name_char(#[trigger] g[i])
}

/// A target directory: a relative path, `/`-separated, of valid segments
/// (so not absolute, without empty, `.` or `..` segments).
pub open spec fn valid_target(s: Seq<char>) -> bool {
    forall|k: int| 0 <= k < split(s, '/').len() ==> valid_segment(#[trigger] split(s, '/')[k])
}

/// No two dependencies share a name.
pub open spec fn distinct_names(deps: Seq<(String, String)>) -> bool {
    forall|i: int, j: int|
        0 <= i < j < deps.len() ==> (#[trigger] deps[i]).0@ != (#[trigger] deps[j]).0@
}

/// Every dependency requirement is accepted by semver.
pub open spec fn requirements_valid(deps: Seq<(String, String)>) -> bool {
    forall|i: int| 0 <= i < deps.len() ==> semver_requirement_accepts(#[trigger] deps[i].1@)
}

/// The first problem that validation finds in `raw`, checking in this order:
/// name present, version present, name well-formed, version accepted,
/// target well-formed, dependency names distinct, every requirement accepted.
pub open spec fn manifest_problem(raw: RawManifest) -> Option<ManifestError> {
    if raw.name is None {
        Some(ManifestError::FieldMissing(Field::Name))
    } else if raw.version is None {
        Some(ManifestError::FieldMissing(Field::Version))
    } else if !valid_name(raw.name->0@) {
        Some(ManifestError::FieldInvalid(Field::Name))
    } else if !semver_version_accepts(raw.version->0@) {
        Some(ManifestError::FieldInvalid(Field::Version))
    } else if raw.target matches Some(t) && !valid_target(t@) {
        Some(ManifestError::FieldInvalid(Field::Target))
    } else if !distinct_names(raw.dependencies@) {
        Some(ManifestError::FieldInvalid(Field::Dependencies))
    } else if !requirements_valid(raw.dependencies@) {
        Some(ManifestError::FieldInvalid(Field::Dependencies))
    } else {
        None
    }
}

fn chars_all_alphanumeric(s: &str) -> (r: bool)
    ensures
        r == forall|i: int| 0 <= i < s@.len() ==> is_ascii_alphanumeric(#[trigger] s@[i]),
{
    let n = s.unicode_len();
    let mut i: usize = 0;
    while i < n
        invariant
            n == s@.len(),
            i <= n,
            forall|j: int| 0 <= j < i ==> is_ascii_alphanumeric(#[trigger] s@[j]),
        decreases n - i,
    {
        let c = s.get_char(i);
        if !(('a' <= c && c <= 'z') || ('A' <= c && c <= 'Z') || ('0' <= c && c <= '9')) {
            return false;
        }
        i = i + 1;
    }
    true
}

/// Whether `s` is a well-formed package name.
pub fn is_valid_name(s: &str) -> (r: bool)
    ensures
        r == valid_name(s@),
{
    s.unicode_len() > 0 && chars_all_alphanumeric(s)
}

/// Whether `g` is a valid segment of a target path.
fn is_valid_segment(g: &str) -> (r: bool)
    ensures
        r == valid_segment(g@),
{
    let n = g.unicode_len();
    if n == 0 {
        return false;
    }
    let mut i: usize = 0;
    while i < n
        invariant
            n == g@.len(),
            i <= n,
            forall|j: int| 0 <= j < i ==> is_dir_name_char(#[trigger] g@[j]),
        decreases n - i,
    {
        let c = g.get_char(i);
        if !(('a' <= c && c <= 'z') || ('A' <= c && c <= 'Z') || ('0' <= c && c <= '9') || c
            == '_' || c == '-' || c == '.') {
            return false;
        }
        i = i + 1;
    }
    let one_dot = n == 1 && g.get_char(0) == '.';
    let two_dots = n == 2 && g.get_char(0) == '.' && g.get_char(1) == '.';
    proof {
        if n == 1 && g@[0] == '.' {
            assert(g@ =~= seq!['.']);
        }
        if n == 2 && g@[0] == '.' && g@[1] == '.' {
            assert(g@ =~= seq!['.', '.']);
        }
        if g@ == seq!['.'] {
            assert(g@[0] == '.');
        }
        if g@ == seq!['.', '.'] {
            assert(g@[0] == '.' && g@[1] == '.');
        }
    }
    !one_dot && !two_dots
}

/// Whether `s` is a well-formed target directory.
pub fn is_valid_target(s: &str) -> (r: bool)
    ensures
        r == valid_target(s@),
{
    let n = s.unicode_len();
    let mut start: usize = 0;
    let mut i: usize = 0;
    let ghost mut done: Seq<Seq<char>> = Seq::empty();
    proof {
        assert(s@.subrange(0, 0) == Seq::<char>::empty());
        assert(split(Seq::<char>::empty(), '/') == seq![Seq::<char>::empty()]);
        assert(done.push(s@.subrange(0, 0)) == seq![Seq::<char>::empty()]);
    }
    while i < n
        invariant
            n == s@.len(),
            start <= i <= n,
            split(s@.subrange(0, i as int), '/') == done.push(s@.subrange(start as int, i as int)),
            forall|k: int| 0 <= k < done.len() ==> valid_segment(#[trigger] done[k]),
        decreases n - i,
    {
        proof {
            lemma_split_step(s@, '/', i as int);
        }
        let c = s.get_char(i);
        if c == '/' {
            let ghost cur = s@.subrange(start as int, i as int);
            if !is_valid_segment(s.substring_char(start, i)) {
                proof {
                    let full = split(s@, '/');
                    lemma_split_prefix(s@, '/', i as int + 1);
                    assert(split(s@.subrange(0, i + 1), '/')[done.len() as int] == cur);
                    assert(full[done.len() as int] == cur);
                }
                return false;
            }
            proof {
                done = done.push(cur);
                assert(s@.subrange(i + 1, i + 1) == Seq::<char>::empty());
            }
            start = i + 1;
        } else {
            proof {
                assert(s@.subrange(start as int, i + 1) == s@.subrange(start as int, i as int).push(
                    c,
                ));
            }
        }
        i = i + 1;
    }
    proof {
        assert(s@.subrange(0, n as int) == s@);
    }
    let last_ok = is_valid_segment(s.substring_char(start, n));
    proof {
        let full = split(s@, '/');
        if !last_ok {
            assert(full[done.len() as int] == s@.subrange(start as int, n as int));
        } else {
            assert forall|k: int| 0 <= k < full.len() implies valid_segment(#[trigger] full[k]) by {
                if k < done.len() {
                    assert(full[k] == done[k]);
                }
            }
        }
    }
    last_ok
}

/// Whether semver accepts `s` as a version. An accepted version always has
/// three numeric components.
pub fn is_valid_version(s: &str) -> (r: bool)
    ensures
        r == semver_version_accepts(s@),
        !numeric_core(s@) ==> !r,
{
    version_parses(s)
}

fn names_distinct(deps: &Vec<(String, String)>) -> (r: bool)
    ensures
        r == distinct_names(deps@),
{
    let mut j: usize = 0;
    while j < deps.len()
        invariant
            j <= deps@.len(),
            forall|a: int, b: int|
                0 <= a < b < j ==> (#[trigger] deps@[a]).0@ != (#[trigger] deps@[b]).0@,
        decreases deps@.len() - j,
    {
        let mut i: usize = 0;
        while i < j
            invariant
                i <= j < deps@.len(),
                forall|a: int| 0 <= a < i ==> (#[trigger] deps@[a]).0@ != deps@[j as int].0@,
            decreases j - i,
        {
            if same_text(deps[i].0.as_str(), deps[j].0.as_str()) {
                assert(deps@[i as int].0@ == deps@[j as int].0@);
                return false;
            }
            i = i + 1;
        }
        j = j + 1;
    }
    true
}

fn requirements_parse(deps: &Vec<(String, String)>) -> (r: bool)
    ensures
        r == requirements_valid(deps@),
{
    let mut i: usize = 0;
    while i < deps.len()
        invariant
            i <= deps@.len(),
            forall|j: int| 0 <= j < i ==> semver_requirement_accepts(#[trigger] deps@[j].1@),
        decreases deps@.len() - i,
    {
        if !requirement_parses(deps[i].1.as_str()) {
            return false;
        }
        i = i + 1;
    }
    true
}

/// Validates the raw fields of a manifest. The first problem found, in the
/// order `manifest_problem` gives, is returned as the error; otherwise the
/// manifest holds the fields exactly as given, with the target defaulting
/// to `target`.
pub fn load_manifest(raw: RawManifest) -> (r: Result<Manifest, ManifestError>)
    ensures
        manifest_problem(raw) matches Some(e) ==> r == Err::<Manifest, ManifestError>(e),
        manifest_problem(raw) is None <==> r is Ok,
        r matches Ok(m) ==> m.wf(),
        r matches Ok(m) ==> {
            &&& m.name == raw.name->0
            &&& m.version == raw.version->0
            &&& m.authors == raw.authors
            &&& m.dependencies == raw.dependencies
            &&& match raw.target {
                Some(t) => m.target == t,
                None => m.target@ == DEFAULT_TARGET@,
            }
        },
        raw.name is Some && raw.version is Some && !numeric_core(raw.version->0@) ==> r matches Err(
            ManifestError::FieldInvalid(_),
        ),
{
    let RawManifest { name, version, authors, target, dependencies } = raw;
    let name = match name {
        Some(n) => n,
        None => return Err(ManifestError::FieldMissing(Field::Name)),
    };
    let version = match version {
        Some(v) => v,
        None => return Err(ManifestError::FieldMissing(Field::Version)),
    };
    if !is_valid_name(name.as_str()) {
        return Err(ManifestError::FieldInvalid(Field::Name));
    }
    if !is_valid_version(version.as_str()) {
        return Err(ManifestError::FieldInvalid(Field::Version));
    }
    let target = match target {
        Some(t) => {
            if !is_valid_target(t.as_str()) {
                return Err(ManifestError::FieldInvalid(Field::Target));
            }
            t
        },
        None => {
            proof {
                reveal_strlit("target");
                lemma_split_without_separator(DEFAULT_TARGET@, '/');
                assert(valid_segment(DEFAULT_TARGET@));
            }
            String::from_str(DEFAULT_TARGET)
        },
    };
    if !names_distinct(&dependencies) {
        return Err(ManifestError::FieldInvalid(Field::Dependencies));
    }
    if !requirements_parse(&dependencies) {
        return Err(ManifestError::FieldInvalid(Field::Dependencies));
    }
    Ok(Manifest { name, version, authors, target, dependencies })
}

} // verus!
