//! Command-line surface: the parsed commands and the session each one opens.

pub mod account;
pub mod add;
pub mod pack;
pub mod init;

use vstd::prelude::*;
use crate::pipeline::{Action, Build, BuildOptions};

verus! {

/// The parsed command line.
pub struct Cli {
    pub command: Commands,
}

pub enum Commands {
    /// Initialize a plugin.
    Init(init::Cli),
    /// Build a plugin.
    Build(pack::Cli),
}

/// What a command sets going.
pub enum Session {
    /// Scaffold a new plugin.
    Init,
    /// Build the plugin at `path` (the working directory when `None`): the
    /// build and the first action it asks for.
    Build { path: Option<String>, build: Build, action: Action },
}

/// Opens the session that the command line asks for.
pub fn run(cli: Cli) -> (r: Session)
    ensures
        match cli.command {
            Commands::Init(_) => r is Init,
            Commands::Build(args) => match r {
                Session::Build { path, build, action } => {
                    &&& path == args.path
                    &&& build.options == pack::options_of(args)
                    &&& build.stage is LoadManifest
                    &&& action is ReadManifest
                },
                _ => false,
            },
        },
{
    match cli.command {
        Commands::Init(_) => Session::Init,
        Commands::Build(args) => {
            let options = args.options();
            let (build, action) = Build::new(options);
            Session::Build { path: args.path, build, action }
        },
    }
}

} // verus!
