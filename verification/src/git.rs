//! The repository accessor: opens an on-disk repository and answers
//! metadata queries against it.

use vstd::prelude::*;

use crate::errors::GitError;
use crate::ext;
use crate::metadata::{build_metadata, is_trimmed, CommitMetadata};
use crate::select::filter_eligible;

verus! {

/// A handle to an opened on-disk repository. It is exclusively owned, read
/// only, and released when the accessor is dropped.
pub struct GitRepository {
    repo: git2::Repository,
}

impl GitRepository {
    /// Opens the repository at `path` (the repository root, or any path the
    /// underlying resolver accepts). The only way this fails is with
    /// `RepositoryOpen`, when the path does not lead to a valid repository.
    pub fn open(path: &str) -> (r: Result<Self, GitError>)
        ensures
            r matches Err(e) ==> e is RepositoryOpen,
    {
        match ext::repo_open(path) {
            Ok(repo) => Ok(GitRepository { repo }),
            Err(e) => Err(GitError::RepositoryOpen(ext::error_message(&e))),
        }
    }

    /// Looks a commit up by a revision specifier (full or abbreviated hash,
    /// or any syntax the underlying resolver accepts), peeling the resolved
    /// object to the commit it points to, and extracts its metadata.
    ///
    /// Fails with `CommitResolution` exactly when the specifier resolves to
    /// no object, and with `NotACommit` exactly when the resolved object
    /// cannot be peeled to a commit; no other error is ever reported.
    pub fn get_commit(&self, hash: &str) -> (r: Result<CommitMetadata, GitError>)
        ensures
            r matches Err(e) ==> (e is CommitResolution || e is NotACommit),
            r matches Ok(m) ==> is_trimmed(m.message@),
    {
        let obj = match ext::revparse_single(&self.repo, hash) {
            Ok(obj) => obj,
            Err(e) => {
                return Err(GitError::CommitResolution(ext::error_message(&e)));
            },
        };
        let commit = match ext::peel_to_commit(&obj) {
            Ok(commit) => commit,
            Err(e) => {
                return Err(GitError::NotACommit(ext::error_message(&e)));
            },
        };
        Ok(Self::extract_metadata(&commit))
    }

    /// Picks one non-merge commit (parent count at most one) uniformly at
    /// random among all commits reachable from the head reference, and
    /// extracts its metadata. A commit whose lookup fails during the walk is
    /// silently excluded rather than aborting the operation.
    ///
    /// Fails with `WalkInit` when the walk cannot be started, with
    /// `NoEligibleCommits` when no non-merge commit is reachable, and with
    /// `CommitResolution` when the chosen identifier can no longer be
    /// resolved; the defensive `Selection` error is proved unreachable, and
    /// no other error is ever reported.
    pub fn random_commit(&self) -> (r: Result<CommitMetadata, GitError>)
        ensures
            r matches Err(e) ==> (e is WalkInit || e is NoEligibleCommits
                || e is CommitResolution),
            r matches Ok(m) ==> is_trimmed(m.message@),
    {
        let mut walk = match ext::revwalk_new(&self.repo) {
            Ok(walk) => walk,
            Err(e) => {
                return Err(GitError::WalkInit(ext::error_message(&e)));
            },
        };
        match ext::push_head(&mut walk) {
            Ok(()) => (),
            Err(e) => {
                return Err(GitError::WalkInit(ext::error_message(&e)));
            },
        }
        let mut entries: Vec<(git2::Oid, usize)> = Vec::new();
        // The walk yields each reachable commit once, so it takes far fewer
        // steps than the counter allows; the counter only makes termination
        // checkable.
        let mut steps: usize = usize::MAX;
        while steps > 0
            decreases steps,
        {
            steps = steps - 1;
            match ext::walk_next(&mut walk) {
                None => {
                    break ;
                },
                Some(Err(_)) => (),
                Some(Ok(oid)) => {
                    match ext::find_commit(&self.repo, oid) {
                        Err(_) => (),
                        Ok(commit) => {
                            let parents = ext::parent_count(&commit);
                            entries.push((oid, parents));
                        },
                    }
                },
            }
        }
        let eligible = filter_eligible(&entries);
        if eligible.len() == 0 {
            return Err(GitError::NoEligibleCommits);
        }
        match ext::choose_oid(&eligible) {
            None => Err(GitError::Selection),
            Some(oid) => match ext::find_commit(&self.repo, oid) {
                Err(e) => Err(GitError::CommitResolution(ext::error_message(&e))),
                Ok(commit) => Ok(Self::extract_metadata(&commit)),
            },
        }
    }

    /// Reads the raw fields off a commit object and assembles the metadata
    /// snapshot: the hex identifier, the author name with its "Unknown"
    /// fallback, the authored time with its fallback to the current time
    /// when chrono cannot represent it, and the trimmed message.
    pub fn extract_metadata(commit: &git2::Commit<'_>) -> (m: CommitMetadata)
        ensures
            is_trimmed(m.message@),
    {
        let hash = ext::commit_id_hex(commit);
        let author = ext::commit_author(commit);
        let name = ext::signature_name(&author);
        let authored = ext::signature_time_seconds(&author);
        let date = if ext::timestamp_in_range(authored) {
            authored
        } else {
            ext::current_timestamp()
        };
        let message = ext::commit_message(commit);
        build_metadata(hash, name, date, message)
    }
}

} // verus!
