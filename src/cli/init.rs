//! The `init` command: the files a new plugin starts with.

use vstd::prelude::*;

verus! {

/// Arguments of the `init` command (it has none).
pub struct Cli {}

/// Content of the new plugin's `.gitignore`.
pub const GITIGNORE: &'static str = "# Ignore target directory\n/target/";

/// Version that a new plugin starts at.
pub const INITIAL_VERSION: &'static str = "0.1.0";

/// The manifest that a new plugin starts with.
pub open spec fn initial_manifest(name: Seq<char>, description: Seq<char>, author: Seq<char>) -> Seq<char> {
    "[plugin]\nname = \""@ + name + "\"\nversion = \""@ + INITIAL_VERSION@ + "\"\ndescription = \""@
        + description + "\"\nauthors = [\""@ + author + "\"]"@
}

/// The text of `manifest.toml` for a new plugin.
pub fn manifest_text(name: &str, description: &str, author: &str) -> (r: String)
    ensures
        r@ == initial_manifest(name@, description@, author@),
{
    let mut r = String::from_str("[plugin]\nname = \"");
    r.append(name);
    r.append("\"\nversion = \"");
    r.append(INITIAL_VERSION);
    r.append("\"\ndescription = \"");
    r.append(description);
    r.append("\"\nauthors = [\"");
    r.append(author);
    r.append("\"]");
    r
}

} // verus!
