//! The trusted boundary to the repository access layer.
//!
//! Repositories, commits, signatures and mailmaps are opaque here: the
//! wrappers below turn what the logic reads into plain values, and each
//! one's doc comment names the outside function it relies on.

use vstd::prelude::*;

verus! {

#[verifier::external_type_specification]
#[verifier::external_body]
pub struct ExRepository(git2::Repository);

#[verifier::external_type_specification]
#[verifier::external_body]
pub struct ExConfig(git2::Config);

#[verifier::external_type_specification]
#[verifier::external_body]
pub struct ExMailmap(git2::Mailmap);

#[verifier::external_type_specification]
#[verifier::external_body]
pub struct ExCommit<'repo>(git2::Commit<'repo>);

#[verifier::external_type_specification]
#[verifier::external_body]
pub struct ExSignature<'a>(git2::Signature<'a>);

/// Relies on git2::Repository::discover: opens the repository that contains
/// `path`, searching upward, and fails when none does.
#[verifier::external_body]
pub(crate) fn open_repo(path: &String) -> (r: Result<git2::Repository, String>)
{
    match git2::Repository::discover(path.as_str()) {
        Ok(repo) => Ok(repo),
        Err(e) => Err(e.message().to_string()),
    }
}

/// Relies on git2::Repository::workdir: the work-tree root of a non-bare
/// repository, `None` for a bare one (or when the path is not valid text).
#[verifier::external_body]
pub(crate) fn repo_workdir(repo: &git2::Repository) -> (r: Option<String>)
{
    match repo.workdir() {
        Some(p) => match p.to_str() {
            Some(s) => Some(s.to_string()),
            None => None,
        },
        None => None,
    }
}

/// Relies on git2::Repository::path: the repository's own directory;
/// `None` when the path is not valid text.
#[verifier::external_body]
pub(crate) fn repo_git_path(repo: &git2::Repository) -> (r: Option<String>)
{
    match repo.path().to_str() {
        Some(s) => Some(s.to_string()),
        None => None,
    }
}

/// Relies on git2::Repository::config: the repository's configuration.
#[verifier::external_body]
pub(crate) fn repo_config(repo: &git2::Repository) -> (r: Result<git2::Config, String>)
{
    match repo.config() {
        Ok(c) => Ok(c),
        Err(e) => Err(e.message().to_string()),
    }
}

/// Relies on git2::Config::get_string: the value of `key`, `None` when the
/// key is not set (or cannot be read as a string).
#[verifier::external_body]
pub(crate) fn config_get_string(config: &git2::Config, key: &str) -> (r: Option<String>)
{
    match config.get_string(key) {
        Ok(v) => Some(v),
        Err(_) => None,
    }
}

/// Relies on git2::Repository::mailmap: the repository's mailmap; a missing
/// mailmap file yields an empty mapping, not an error.
#[verifier::external_body]
pub(crate) fn repo_mailmap(repo: &git2::Repository) -> (r: Result<git2::Mailmap, String>)
{
    match repo.mailmap() {
        Ok(m) => Ok(m),
        Err(e) => Err(e.message().to_string()),
    }
}

/// Relies on git2::Repository::find_commit, with git2::Oid::from_str
/// converting the hex id; fails for ids that do not name a commit.
#[verifier::external_body]
pub(crate) fn find_commit<'r>(repo: &'r git2::Repository, id: &String) -> (r: Result<
    git2::Commit<'r>,
    String,
>)
{
    match git2::Oid::from_str(id.as_str()) {
        Ok(oid) => match repo.find_commit(oid) {
            Ok(c) => Ok(c),
            Err(e) => Err(e.message().to_string()),
        },
        Err(e) => Err(e.message().to_string()),
    }
}

/// Relies on git2::Commit::author_with_mailmap: the author, with the
/// mailmap's substitutions applied.
#[verifier::external_body]
pub(crate) fn author_with_mailmap<'a>(commit: &git2::Commit<'a>, mailmap: &git2::Mailmap) -> (r:
    Result<git2::Signature<'static>, String>)
{
    match commit.author_with_mailmap(mailmap) {
        Ok(s) => Ok(s),
        Err(e) => Err(e.message().to_string()),
    }
}

/// Relies on git2::Commit::committer_with_mailmap: the committer, with the
/// mailmap's substitutions applied.
#[verifier::external_body]
pub(crate) fn committer_with_mailmap<'a>(commit: &git2::Commit<'a>, mailmap: &git2::Mailmap) -> (r:
    Result<git2::Signature<'static>, String>)
{
    match commit.committer_with_mailmap(mailmap) {
        Ok(s) => Ok(s),
        Err(e) => Err(e.message().to_string()),
    }
}

/// Relies on git2::Commit::author: the author as recorded, without mailmap
/// substitution.
#[verifier::external_body]
pub(crate) fn commit_author<'a, 'b>(commit: &'a git2::Commit<'b>) -> (r: git2::Signature<'a>)
{
    commit.author()
}

/// Relies on git2::Commit::committer: the committer as recorded, without
/// mailmap substitution.
#[verifier::external_body]
pub(crate) fn commit_committer<'a, 'b>(commit: &'a git2::Commit<'b>) -> (r: git2::Signature<'a>)
{
    commit.committer()
}

/// Relies on git2::Commit::message_bytes: the raw bytes of the commit
/// message.
#[verifier::external_body]
pub(crate) fn commit_message_bytes(commit: &git2::Commit) -> (r: Vec<u8>)
{
    commit.message_bytes().to_vec()
}

/// Relies on git2::Signature::name: the name on the signature, `None` when
/// it is not valid text.
#[verifier::external_body]
pub(crate) fn sig_name(s: &git2::Signature) -> (r: Option<String>)
{
    match s.name() {
        Ok(n) => Some(n.to_string()),
        Err(_) => None,
    }
}

/// Relies on git2::Signature::email: the email on the signature, `None`
/// when it is not valid text.
#[verifier::external_body]
pub(crate) fn sig_email(s: &git2::Signature) -> (r: Option<String>)
{
    match s.email() {
        Ok(e) => Some(e.to_string()),
        Err(_) => None,
    }
}

/// Relies on git2::Signature::when and git2::Time::seconds: the signature's
/// time in seconds since the Unix epoch.
#[verifier::external_body]
pub(crate) fn sig_time(s: &git2::Signature) -> (r: i64)
{
    s.when().seconds()
}

} // verus!
