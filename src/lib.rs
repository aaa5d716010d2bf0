//! Packaging of plugin projects: manifest validation, ignore rules, the
//! selection of archive entries from a walk of the project tree, archive
//! encoding, and the build pipeline that ties them together as a state
//! machine. Around it, the logic of the smaller commands: the new-plugin
//! template, template lookup, account and module requests.

pub mod text;
pub mod manifest;
pub mod ignore;
pub mod walk;
pub mod pipeline;
pub mod archive;
pub mod cli;
pub mod model;
pub mod init;
