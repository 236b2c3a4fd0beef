//! A verified core for a Nextflow language-server editor extension.
//!
//! Two components: an artifact resolver, modelled as a state machine that an
//! unverified I/O shell drives (it ensures the language-server jar is present
//! locally, downloading it on first use), and a pure renderer that turns
//! language-server completion items into annotated editor labels.

pub mod command;
pub mod label;
pub mod resolver;

pub use command::{language_server_command, LaunchCommand};
pub use label::{
    label_for_completion, ByteRange, CodeLabel, CodeLabelSpan, Completion, CompletionKind,
};
pub use resolver::{
    find_asset_index, jar_file_name, repo_name, staging_dir_name, Action, Event, Outcome, Phase,
    Release, ReleaseAsset, ResolveError, Resolver,
};
