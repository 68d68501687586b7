use vstd::prelude::*;
use git2::{Commit, ErrorCode, Index, Oid, Reference, Repository, RepositoryOpenFlags, Signature, Tree};

verus! {

#[verifier::external_type_specification]
#[verifier::external_body]
pub struct ExRepository(git2::Repository);

#[verifier::external_type_specification]
#[verifier::external_body]
pub struct ExError(git2::Error);

#[verifier::external_type_specification]
#[verifier::external_body]
pub struct ExOid(git2::Oid);

#[verifier::external_type_specification]
#[verifier::external_body]
pub struct ExIndex(git2::Index);

#[verifier::external_type_specification]
#[verifier::external_body]
pub struct ExCommit<'repo>(git2::Commit<'repo>);

#[verifier::external_type_specification]
#[verifier::external_body]
pub struct ExTree<'repo>(git2::Tree<'repo>);

#[verifier::external_type_specification]
#[verifier::external_body]
pub struct ExSignature<'a>(git2::Signature<'a>);

#[verifier::external_type_specification]
#[verifier::external_body]
pub struct ExReference<'repo>(git2::Reference<'repo>);

/// Relies on git2's `Repository::index`: the repository's index, or an error.
pub assume_specification[ git2::Repository::index ](repo: &Repository) -> Result<Index, git2::Error>;

/// Relies on git2's `Index::write_tree`: writes the index as a tree object.
pub assume_specification[ git2::Index::write_tree ](index: &mut Index) -> Result<Oid, git2::Error>;

/// Relies on git2's `Repository::signature`: the identity from the
/// repository's configuration.
pub assume_specification[ git2::Repository::signature ](repo: &Repository) -> Result<
    Signature<'static>,
    git2::Error,
>;

/// Relies on git2's `Repository::find_tree`: looks a tree up by its id.
pub assume_specification[ git2::Repository::find_tree ](repo: &Repository, oid: Oid) -> Result<
    Tree<'_>,
    git2::Error,
>;

/// Relies on git2's `Repository::head`: the reference HEAD points to.
pub assume_specification[ git2::Repository::head ](repo: &Repository) -> Result<
    Reference<'_>,
    git2::Error,
>;

/// Relies on git2's `Reference::peel_to_commit`: the commit a reference
/// resolves to.
pub assume_specification<'repo>[ git2::Reference::<'repo>::peel_to_commit ](
    reference: &Reference<'repo>,
) -> Result<Commit<'repo>, git2::Error>;

/// Relies on git2's `Repository::commit`: writes a commit object with the
/// given parents and moves `update_ref` to it.
pub assume_specification[ git2::Repository::commit ](
    repo: &Repository,
    update_ref: Option<&str>,
    author: &Signature<'_>,
    committer: &Signature<'_>,
    message: &str,
    tree: &Tree<'_>,
    parents: &[&Commit<'_>],
) -> Result<Oid, git2::Error>;

/// Relies on git2's `Repository::open_ext`: opens the repository found by
/// searching upward from `path`, with no ceiling directories.
#[verifier::external_body]
fn open_repository(path: &str) -> (r: Result<Repository, git2::Error>) {
    Repository::open_ext(path, RepositoryOpenFlags::empty(), Vec::<&str>::new())
}

/// Relies on git2's `Repository::statuses`: the status flags of each entry,
/// as the bits of `git2::Status`.
#[verifier::external_body]
fn status_bits(repo: &Repository) -> (r: Result<Vec<u32>, git2::Error>) {
    match repo.statuses(None) {
        Ok(statuses) => Ok(statuses.iter().map(|e| e.status().bits()).collect()),
        Err(e) => Err(e),
    }
}

/// The index flags of a status: new, modified, deleted, renamed or type
/// changed in the index.
pub const STAGED_MASK: u32 = 31;

/// An entry whose status has a change in the index.
pub open spec fn is_staged(bits: u32) -> bool {
    bits & STAGED_MASK != 0
}

/// Whether any status has a change in the index.
pub fn any_staged(statuses: &[u32]) -> (r: bool)
    ensures
        r == exists|i: int| 0 <= i < statuses@.len() && is_staged(#[trigger] statuses@[i]),
{
    let mut i: usize = 0;
    while i < statuses.len()
        invariant
            i <= statuses@.len(),
            forall|j: int| 0 <= j < i ==> !is_staged(#[trigger] statuses@[j]),
        decreases statuses@.len() - i,
    {
        if statuses[i] & STAGED_MASK != 0 {
            return true;
        }
        i = i + 1;
    }
    false
}

/// The parents of a new commit: none for the first commit of a history,
/// else the current tip alone.
pub fn commit_parents<T>(tip: Option<T>) -> (r: Vec<T>)
    ensures
        match tip {
            Some(t) => r@ == seq![t],
            None => r@.len() == 0,
        },
{
    let mut r: Vec<T> = Vec::new();
    match tip {
        Some(t) => r.push(t),
        None => {},
    }
    r
}

/// Why a repository operation failed.
#[derive(Debug, PartialEq, Eq, Structural, Clone, Copy)]
pub enum RepoError {
    RepositoryNotFound,
    StatusError,
    CommitError,
}

/// The one open handle to a repository. Every operation borrows it, so
/// operations on it never overlap.
pub struct RepositoryGateway {
    repo: Repository,
}

/// Opens the repository found by searching upward from `path`.
pub fn get_repository(path: &str) -> (r: Result<RepositoryGateway, RepoError>)
    ensures
        r is Err ==> r == Err::<RepositoryGateway, RepoError>(RepoError::RepositoryNotFound),
{
    match open_repository(path) {
        Ok(repo) => Ok(RepositoryGateway { repo }),
        Err(_) => Err(RepoError::RepositoryNotFound),
    }
}

/// Relies on git2's `Error::code`: whether a failed HEAD lookup reports an
/// unborn branch, that is HEAD naming a branch that has no commit yet.
#[verifier::external_body]
fn is_unborn_branch(e: &git2::Error) -> (r: bool) {
    matches!(e.code(), ErrorCode::UnbornBranch)
}

/// The tip that a new commit is parented on, from the outcome of looking it
/// up: the commit found, none where HEAD is an unborn branch (the first
/// commit of a history), and an error for any other failed lookup.
pub fn tip_from<T>(found: Option<T>, unborn: bool) -> (r: Result<Option<T>, RepoError>)
    ensures
        match found {
            Some(t) => r == Ok::<Option<T>, RepoError>(Some(t)),
            None => if unborn {
                r == Ok::<Option<T>, RepoError>(None)
            } else {
                r == Err::<Option<T>, RepoError>(RepoError::CommitError)
            },
        },
{
    match found {
        Some(t) => Ok(Some(t)),
        None => if unborn {
            Ok(None)
        } else {
            Err(RepoError::CommitError)
        },
    }
}

/// Finds the last commit inside a git repository: the commit HEAD resolves
/// to, none where HEAD is an unborn branch, and `CommitError` where HEAD
/// exists but cannot be resolved to a commit.
fn find_last_commit(repo: &Repository) -> (r: Result<Option<Commit<'_>>, RepoError>)
    ensures
        r is Err ==> r == Err::<Option<Commit<'_>>, RepoError>(RepoError::CommitError),
{
    match repo.head() {
        Ok(head) => match head.peel_to_commit() {
            Ok(c) => tip_from(Some(c), false),
            Err(_) => tip_from(None, false),
        },
        Err(e) => tip_from(None, is_unborn_branch(&e)),
    }
}

/// Whether any entry of the repository status is staged.
pub fn check_staged_files_exist(repo: &RepositoryGateway) -> (r: Result<bool, RepoError>)
    ensures
        r is Err ==> r == Err::<bool, RepoError>(RepoError::StatusError),
{
    match status_bits(&repo.repo) {
        Ok(bits) => Ok(any_staged(bits.as_slice())),
        Err(_) => Err(RepoError::StatusError),
    }
}

/// Commits the index with `msg`, parented on the current tip, or with no
/// parent where HEAD is an unborn branch, and moves HEAD's branch to the new
/// commit. Where HEAD exists but does not resolve to a commit, nothing is
/// written and the result is `CommitError`.
pub fn commit_to_repo(msg: &str, repo: &RepositoryGateway) -> (r: Result<Oid, RepoError>)
    ensures
        r is Err ==> r == Err::<Oid, RepoError>(RepoError::CommitError),
{
    let mut index = match repo.repo.index() {
        Ok(i) => i,
        Err(_) => return Err(RepoError::CommitError),
    };
    let tree_id = match index.write_tree() {
        Ok(id) => id,
        Err(_) => return Err(RepoError::CommitError),
    };
    let signature = match repo.repo.signature() {
        Ok(s) => s,
        Err(_) => return Err(RepoError::CommitError),
    };
    let tree = match repo.repo.find_tree(tree_id) {
        Ok(t) => t,
        Err(_) => return Err(RepoError::CommitError),
    };
    let tip = match find_last_commit(&repo.repo) {
        Ok(tip) => tip,
        Err(e) => return Err(e),
    };
    let parents = commit_parents(tip.as_ref());
    match repo.repo.commit(
        Some("HEAD"),
        &signature,
        &signature,
        msg,
        &tree,
        parents.as_slice(),
    ) {
        Ok(id) => Ok(id),
        Err(_) => Err(RepoError::CommitError),
    }
}

} // verus!
