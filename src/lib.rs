//! A registry of user-defined commands kept in a package manifest's metadata:
//! manifests are classified as a package, a workspace root or a workspace
//! alone, workspace members are found by glob patterns, and a command name
//! resolves to the ordered list of shell commands to run, with its `pre` and
//! `post` hooks and across the members of a workspace.

pub mod commands;
pub mod document;
pub mod error;
pub mod manifest;
pub mod paths;

pub use commands::{GetCommands, Metadata, Package};
pub use document::ManifestValue;
pub use error::{Error, ErrorKind};
pub use manifest::{parse_document, CargoToml, Outline, Workspace, WorkspaceSection};
pub use paths::{add_globbed, extend_globs, extend_manifest_paths, keep_unexcluded, manifest_paths_of, GlobEntry};
