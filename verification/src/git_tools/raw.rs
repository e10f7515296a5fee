//! Trusted bindings to the `git2` crate (and one to `uuid`).
//!
//! Each function here wraps exactly one outside call.  Nothing in this
//! module is verified; every caller is, against the contracts stated here.
//! Repository contents live on disk, so no wrapper promises anything about
//! the values that come back: the verified callers state what holds of
//! every outcome.

use vstd::prelude::*;

verus! {

#[verifier::external_type_specification]
#[verifier::external_body]
pub struct ExRepository(git2::Repository);

#[verifier::external_type_specification]
#[verifier::external_body]
pub struct ExGitError(git2::Error);

#[verifier::external_type_specification]
#[verifier::external_body]
pub struct ExOid(git2::Oid);

#[verifier::external_type_specification]
#[verifier::external_body]
pub struct ExRevwalk<'repo>(git2::Revwalk<'repo>);

#[verifier::external_type_specification]
#[verifier::external_body]
pub struct ExCommit<'repo>(git2::Commit<'repo>);

#[verifier::external_type_specification]
#[verifier::external_body]
pub struct ExReferences<'repo>(git2::References<'repo>);

#[verifier::external_type_specification]
#[verifier::external_body]
pub struct ExReference<'repo>(git2::Reference<'repo>);

/// Relies on git2::Repository::open: opens the repository at `path`,
/// failing if there is none.
#[verifier::external_body]
pub(crate) fn repo_open(path: &str) -> Result<git2::Repository, git2::Error> {
    git2::Repository::open(path)
}

/// Relies on git2::Repository::revwalk: a fresh, empty commit walk over
/// the repository.
#[verifier::external_body]
pub(crate) fn repo_revwalk<'r>(repo: &'r git2::Repository) -> Result<
    git2::Revwalk<'r>,
    git2::Error,
> {
    repo.revwalk()
}

/// Relies on git2::Revwalk::push_head: roots the walk at the head
/// reference, failing when the head cannot be resolved.
#[verifier::external_body]
pub(crate) fn revwalk_push_head(walk: &mut git2::Revwalk<'_>) -> Result<(), git2::Error> {
    walk.push_head()
}

/// Relies on git2::Revwalk::push: roots the walk at the given commit id.
#[verifier::external_body]
pub(crate) fn revwalk_push(walk: &mut git2::Revwalk<'_>, oid: git2::Oid) -> Result<
    (),
    git2::Error,
> {
    walk.push(oid)
}

/// Relies on the Iterator impl of git2::Revwalk: the next commit id
/// reachable from the walk's roots, or `None` when the walk is done.
#[verifier::external_body]
pub(crate) fn revwalk_next(walk: &mut git2::Revwalk<'_>) -> Option<
    Result<git2::Oid, git2::Error>,
> {
    walk.next()
}

/// Relies on git2::Repository::find_commit: looks the commit up by id.
#[verifier::external_body]
pub(crate) fn repo_find_commit<'r>(repo: &'r git2::Repository, oid: git2::Oid) -> Result<
    git2::Commit<'r>,
    git2::Error,
> {
    repo.find_commit(oid)
}

/// Relies on git2::Commit::time and git2::Time::seconds: the commit's
/// (committer) timestamp as signed seconds from the unix epoch.
#[verifier::external_body]
pub(crate) fn commit_time_seconds(commit: &git2::Commit<'_>) -> i64 {
    commit.time().seconds()
}

/// Relies on git2::Commit::author and git2::Signature::name: the author
/// name, when it is valid UTF-8.
#[verifier::external_body]
pub(crate) fn commit_author_name(commit: &git2::Commit<'_>) -> Option<String> {
    match commit.author().name() {
        Ok(name) => Some(name.to_owned()),
        Err(_) => None,
    }
}

/// Relies on git2::Repository::references: an iterator over the repo's
/// references.
#[verifier::external_body]
pub(crate) fn repo_references<'r>(repo: &'r git2::Repository) -> Result<
    git2::References<'r>,
    git2::Error,
> {
    repo.references()
}

/// Relies on the Iterator impl of git2::References: the next reference,
/// or `None` when the iterator is done.
#[verifier::external_body]
pub(crate) fn references_next<'r>(refs: &mut git2::References<'r>) -> Option<
    Result<git2::Reference<'r>, git2::Error>,
> {
    refs.next()
}

/// Relies on git2::Reference::target: the commit id a direct reference
/// points to, `None` for symbolic references.
#[verifier::external_body]
pub(crate) fn reference_target(re: &git2::Reference<'_>) -> Option<git2::Oid> {
    re.target()
}

/// Relies on git2::Repository::is_empty: whether the repository has no
/// commits (its head is unborn).
#[verifier::external_body]
pub(crate) fn repo_is_empty(repo: &git2::Repository) -> Result<bool, git2::Error> {
    repo.is_empty()
}

/// Relies on git2::Error::message: the error's human-readable text.
#[verifier::external_body]
pub(crate) fn git_error_message(e: &git2::Error) -> String {
    e.message().to_owned()
}

/// Relies on git2::build::RepoBuilder::clone: clones the repository at
/// `url` into the directory `path`.
#[verifier::external_body]
pub(crate) fn clone_repo(url: &str, path: &str) -> Result<git2::Repository, git2::Error> {
    git2::build::RepoBuilder::new().clone(url, path.as_ref())
}

/// Relies on std's string formatting: the clone destination `dir/name`.
#[verifier::external_body]
pub(crate) fn join_path(dir: &str, name: &str) -> (r: String)
    ensures
        r@ == dir@ + "/"@ + name@,
{
    format!("{}/{}", dir, name)
}

/// Relies on uuid::Uuid::new_v4: a path under /tmp that a fresh random
/// identifier makes unique.
#[verifier::external_body]
pub(crate) fn fresh_clone_path() -> String {
    format!("/tmp/repo_{}", uuid::Uuid::new_v4())
}

} // verus!
