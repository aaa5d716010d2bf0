//! Arguments of the `build` command, which packs a plugin.

use vstd::prelude::*;
use crate::pipeline::BuildOptions;

verus! {

pub struct Cli {
    /// Build even with uncommitted changes in the repository.
    pub allow_dirty: bool,
    /// Skip the overwrite prompt.
    pub yes: bool,
    /// The path to the plugin.
    pub path: Option<String>,
}

pub open spec fn options_of(args: Cli) -> BuildOptions {
    BuildOptions { allow_dirty: args.allow_dirty, auto_yes: args.yes }
}

impl Cli {
    /// The build switches these arguments set.
    pub fn options(&self) -> (r: BuildOptions)
        ensures
            r == options_of(*self),
    {
        BuildOptions { allow_dirty: self.allow_dirty, auto_yes: self.yes }
    }
}

} // verus!
