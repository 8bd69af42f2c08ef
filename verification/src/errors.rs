//! The ways a repository query can fail.

use vstd::prelude::*;
use vstd::string::StringExecFns;

verus! {

/// One terminal failure of a repository operation. Variants that report an
/// underlying failure carry its message.
#[derive(Debug)]
pub enum GitError {
    /// The path did not lead to a valid repository.
    RepositoryOpen(String),
    /// The revision specifier did not resolve to any object.
    CommitResolution(String),
    /// The specifier resolved, but the object cannot be peeled to a commit.
    NotACommit(String),
    /// The history walk could not be started from the head reference.
    WalkInit(String),
    /// No non-merge commit is reachable from the head reference.
    NoEligibleCommits,
    /// Defensive only: selecting from a set already known to be non-empty
    /// failed anyway.
    Selection,
}

/// The human-readable report of an error: a context line naming the
/// operation that failed, followed by the underlying message, if any.
pub open spec fn error_report(e: GitError) -> Seq<char> {
    match e {
        GitError::RepositoryOpen(d) => "Failed to open Git repository: "@ + d@,
        GitError::CommitResolution(d) => "Invalid commit hash or commit not found: "@ + d@,
        GitError::NotACommit(d) => "Object is not a commit: "@ + d@,
        GitError::WalkInit(d) => "Failed to start history walk: "@ + d@,
        GitError::NoEligibleCommits => "No non-merge commits found in repository"@,
        GitError::Selection => "Failed to select random commit"@,
    }
}

impl GitError {
    /// Renders the error with the context of the operation that failed.
    pub fn describe(&self) -> (r: String)
        ensures
            r@ == error_report(*self),
    {
        match self {
            GitError::RepositoryOpen(d) => {
                "Failed to open Git repository: ".to_owned().concat(d.as_str())
            },
            GitError::CommitResolution(d) => {
                "Invalid commit hash or commit not found: ".to_owned().concat(d.as_str())
            },
            GitError::NotACommit(d) => {
                "Object is not a commit: ".to_owned().concat(d.as_str())
            },
            GitError::WalkInit(d) => {
                "Failed to start history walk: ".to_owned().concat(d.as_str())
            },
            GitError::NoEligibleCommits => {
                "No non-merge commits found in repository".to_owned()
            },
            GitError::Selection => "Failed to select random commit".to_owned(),
        }
    }
}

} // verus!
