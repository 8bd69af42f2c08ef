//! Commit metadata retrieval from an on-disk git repository.
//!
//! The crate opens a repository by path and answers two read-only queries:
//! exact lookup of a commit by revision specifier, and uniform random
//! selection of a non-merge commit reachable from head. Repository access
//! goes through git2 behind a small trusted boundary; everything around it —
//! the eligibility filter, the selection, the metadata extraction and its
//! fallbacks — is verified.

mod ext;

pub mod errors;
pub mod metadata;
pub mod git;
pub mod select;

pub use errors::GitError;
pub use git::GitRepository;
pub use metadata::CommitMetadata;
