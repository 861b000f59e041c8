//! The command line of cargo-temp.
use crate::dependency::Dependency;
use vstd::prelude::*;

verus! {

/// cargo-temp: Create temporary Rust projects with specified dependencies.
pub struct Cli {
    /// Dependencies to add to the project's `Cargo.toml`.
    pub dependencies: Vec<Dependency>,
    /// Create a library project instead of a binary.
    pub lib: bool,
    /// Select the Rust edition for the temporary project.
    pub edition: Option<String>,
    /// Name of the temporary crate.
    pub project_name: Option<String>,
    /// Add benchmarking support using `criterion.rs`, with an optional file name.
    pub bench: Option<Option<String>>,
    /// Create a temporary Git worktree from the repository in the current directory.
    pub worktree_branch: Option<Option<String>>,
    /// Create a temporary clone of a Git repository.
    pub git: Option<String>,
}

} // verus!
