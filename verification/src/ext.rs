//! The trusted boundary to the outside crates.
//!
//! Every item in this module is believed, not verified: each wrapper's body
//! makes the outside call its doc comment names, and its contract states only
//! what that call's source shows. Nothing else in the crate is trusted.

use vstd::prelude::*;
use rand::seq::SliceRandom;

verus! {

#[verifier::external_type_specification]
#[verifier::external_body]
pub struct ExRepository(git2::Repository);

#[verifier::external_type_specification]
#[verifier::external_body]
pub struct ExError(git2::Error);

#[verifier::external_type_specification]
#[verifier::external_body]
pub struct ExObject<'a>(git2::Object<'a>);

#[verifier::external_type_specification]
#[verifier::external_body]
pub struct ExCommit<'a>(git2::Commit<'a>);

#[verifier::external_type_specification]
#[verifier::external_body]
pub struct ExRevwalk<'a>(git2::Revwalk<'a>);

#[verifier::external_type_specification]
#[verifier::external_body]
pub struct ExSignature<'a>(git2::Signature<'a>);

#[verifier::external_type_specification]
#[verifier::external_body]
pub struct ExOid(git2::Oid);

/// Relies on git2::Repository::open: opens the on-disk repository at `path`,
/// failing when the path does not lead to a valid repository.
#[verifier::external_body]
pub(crate) fn repo_open(path: &str) -> Result<git2::Repository, git2::Error> {
    git2::Repository::open(path)
}

/// Relies on git2::Error::message: the human-readable message of the error.
#[verifier::external_body]
pub(crate) fn error_message(e: &git2::Error) -> String {
    e.message().to_owned()
}

/// Relies on git2::Repository::revparse_single: resolves a revision
/// specifier to the single object it names, or fails.
#[verifier::external_body]
pub(crate) fn revparse_single<'r>(
    repo: &'r git2::Repository,
    spec: &str,
) -> Result<git2::Object<'r>, git2::Error> {
    repo.revparse_single(spec)
}

/// Relies on git2::Object::peel_to_commit: dereferences the object down to
/// the commit it points to, or fails when it cannot be peeled to a commit.
#[verifier::external_body]
pub(crate) fn peel_to_commit<'r>(
    obj: &git2::Object<'r>,
) -> Result<git2::Commit<'r>, git2::Error> {
    obj.peel_to_commit()
}

/// Relies on git2::Repository::revwalk: a new, empty history walk over the
/// repository.
#[verifier::external_body]
pub(crate) fn revwalk_new<'r>(
    repo: &'r git2::Repository,
) -> Result<git2::Revwalk<'r>, git2::Error> {
    repo.revwalk()
}

/// Relies on git2::Revwalk::push_head: roots the walk at the repository's
/// current head reference, failing when there is none.
#[verifier::external_body]
pub(crate) fn push_head(walk: &mut git2::Revwalk<'_>) -> Result<(), git2::Error> {
    walk.push_head()
}

/// Relies on git2::Revwalk's Iterator::next: the identifier of the next
/// reachable commit, an error for a step that could not be walked, or None
/// once the walk is exhausted.
#[verifier::external_body]
pub(crate) fn walk_next(
    walk: &mut git2::Revwalk<'_>,
) -> Option<Result<git2::Oid, git2::Error>> {
    walk.next()
}

/// Relies on git2::Repository::find_commit: looks the commit up by its
/// identifier, failing when the repository holds no such commit.
#[verifier::external_body]
pub(crate) fn find_commit<'r>(
    repo: &'r git2::Repository,
    oid: git2::Oid,
) -> Result<git2::Commit<'r>, git2::Error> {
    repo.find_commit(oid)
}

/// Relies on git2::Commit::parent_count: how many parents the commit has.
#[verifier::external_body]
pub(crate) fn parent_count(commit: &git2::Commit<'_>) -> usize {
    commit.parent_count()
}

/// Relies on git2::Commit::id and git2::Oid's hex Display: the commit's
/// content-addressed identifier, hex-encoded.
#[verifier::external_body]
pub(crate) fn commit_id_hex(commit: &git2::Commit<'_>) -> String {
    commit.id().to_string()
}

/// Relies on git2::Commit::author: the author signature recorded on the
/// commit.
#[verifier::external_body]
pub(crate) fn commit_author<'a>(commit: &'a git2::Commit<'_>) -> git2::Signature<'a> {
    commit.author()
}

/// Relies on git2::Signature::name: the name on the signature, or None when
/// it is not valid UTF-8.
#[verifier::external_body]
pub(crate) fn signature_name(sig: &git2::Signature<'_>) -> Option<String> {
    sig.name().ok().map(|n| n.to_owned())
}

/// Relies on git2::Signature::when and git2::Time::seconds: the time recorded
/// on the signature, in seconds since the epoch.
#[verifier::external_body]
pub(crate) fn signature_time_seconds(sig: &git2::Signature<'_>) -> i64 {
    sig.when().seconds()
}

/// Relies on git2::Commit::message: the commit's message, or None when it is
/// not valid UTF-8.
#[verifier::external_body]
pub(crate) fn commit_message(commit: &git2::Commit<'_>) -> Option<String> {
    commit.message().ok().map(|m| m.to_owned())
}

/// Whether chrono can represent a count of seconds since the epoch as a UTC
/// datetime: a pure function of the count alone.
pub uninterp spec fn ts_representable(ts: i64) -> bool;

/// Relies on chrono::DateTime::from_timestamp, a const fn of its arguments:
/// whether the seconds value is representable as a chrono UTC datetime.
#[verifier::external_body]
pub(crate) fn timestamp_in_range(ts: i64) -> (r: bool)
    ensures
        r == ts_representable(ts),
{
    chrono::DateTime::from_timestamp(ts, 0).is_some()
}

/// Relies on chrono::Utc::now and chrono::DateTime::timestamp: the current
/// wall-clock time in seconds since the epoch; no two calls need agree.
#[verifier::external_body]
pub(crate) fn current_timestamp() -> i64 {
    chrono::Utc::now().timestamp()
}

/// Relies on rand::seq::SliceRandom::choose with rand::thread_rng: a
/// uniformly chosen element of the slice, or None exactly when the slice is
/// empty.
#[verifier::external_body]
pub(crate) fn choose_oid(v: &Vec<git2::Oid>) -> (r: Option<git2::Oid>)
    ensures
        r is Some <==> v@.len() > 0,
        r matches Some(oid) ==> v@.contains(oid),
{
    v.choose(&mut rand::thread_rng()).copied()
}

} // verus!
