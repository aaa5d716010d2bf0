//! Settings of the project scaffolder.

use vstd::prelude::*;

verus! {

/// Languages a project may be started in, and the repository prefix of
/// their templates.
pub struct Config {
    pub allowed_languages: Vec<String>,
    pub git_url: String,
}

} // verus!
