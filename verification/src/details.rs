//! Normalized commit metadata for display: author and committer resolved
//! through the mailmap, and the message split into subject and body.

use vstd::prelude::*;
use crate::error::HooksError;
use crate::gitio::{
    open_repo, repo_mailmap, find_commit, author_with_mailmap, committer_with_mailmap,
    commit_author, commit_committer, commit_message_bytes, sig_name, sig_email, sig_time,
};
use crate::message::{CommitMessage, subject_of, body_of, opt_view};
use crate::run::lossy_string;

verus! {

/// Who signed a commit, and when.
#[derive(Debug, Default, Clone)]
pub struct CommitSignature {
    ///
    pub name: String,
    ///
    pub email: String,
    /// time in secs since Unix epoch
    pub time: i64,
}

/// Two signatures are alike when name, email and time all match.
pub open spec fn sig_eq(a: CommitSignature, b: CommitSignature) -> bool {
    a.name@ == b.name@ && a.email@ == b.email@ && a.time == b.time
}

impl PartialEq for CommitSignature {
    fn eq(&self, other: &CommitSignature) -> (r: bool) {
        self.name == other.name && self.email == other.email && self.time == other.time
    }
}

impl vstd::std_specs::cmp::PartialEqSpecImpl for CommitSignature {
    open spec fn obeys_eq_spec() -> bool {
        true
    }

    open spec fn eq_spec(&self, other: &CommitSignature) -> bool {
        sig_eq(*self, *other)
    }
}

impl CommitSignature {
    /// The plain values of a git signature: name and email, with the empty
    /// string standing in when one is absent, and the time in seconds.
    pub fn from<'a>(s: &git2::Signature<'a>) -> (r: CommitSignature)
    {
        let name = match sig_name(s) {
            Some(n) => n,
            None => String::new(),
        };
        let email = match sig_email(s) {
            Some(e) => e,
            None => String::new(),
        };
        CommitSignature { name, email, time: sig_time(s) }
    }
}

/// A commit, ready for display.
#[derive(Default, Clone)]
pub struct CommitDetails {
    ///
    pub author: CommitSignature,
    /// committer when differs to `author` otherwise None
    pub committer: Option<CommitSignature>,
    ///
    pub message: Option<CommitMessage>,
    ///
    pub hash: String,
}

impl CommitDetails {
    /// The first seven characters of the hash.
    pub fn short_hash(&self) -> (r: &str)
        requires
            self.hash@.len() >= 7,
        ensures
            r@ == self.hash@.subrange(0, 7),
    {
        self.hash.as_str().substring_char(0, 7)
    }
}

/// Assemble the details from plain values: the committer is omitted
/// exactly when it is structurally identical to the author, the message is
/// split into subject and body, and the hash is kept as handed in.
pub fn details_from_parts(
    author: CommitSignature,
    committer: CommitSignature,
    message: &str,
    hash: String,
) -> (r: CommitDetails)
    ensures
        r.author == author,
        (r.committer is None) <==> sig_eq(author, committer),
        r.committer is Some ==> r.committer->0 == committer,
        r.message matches Some(m) && m.subject@ == subject_of(message@) && opt_view(m.body)
            == body_of(message@),
        r.hash == hash,
{
    let same = author == committer;
    let committer_opt: Option<CommitSignature> = if same {
        None
    } else {
        Some(committer)
    };
    CommitDetails {
        author,
        committer: committer_opt,
        message: Some(CommitMessage::from(message)),
        hash,
    }
}

/// The author, resolved through the mailmap; when that fails, the author
/// as recorded stands in, and the failure is not surfaced.
pub fn get_author_of_commit<'a, 'b>(commit: &'a git2::Commit<'b>, mailmap: &git2::Mailmap) -> (r:
    git2::Signature<'a>)
{
    match author_with_mailmap(commit, mailmap) {
        Ok(s) => s,
        Err(_) => commit_author(commit),
    }
}

/// The committer, resolved through the mailmap; when that fails, the
/// committer as recorded stands in, and the failure is not surfaced.
pub fn get_committer_of_commit<'a, 'b>(commit: &'a git2::Commit<'b>, mailmap: &git2::Mailmap) -> (r:
    git2::Signature<'a>)
{
    match committer_with_mailmap(commit, mailmap) {
        Ok(s) => s,
        Err(_) => commit_committer(commit),
    }
}

/// The details of the commit `id` names in the repository that contains
/// `repo_path`; fails when the path is not inside a repository or the id
/// does not name a commit.
pub fn get_commit_details(repo_path: &String, id: &String) -> (r: Result<
    CommitDetails,
    HooksError,
>)
    ensures
        r matches Ok(d) ==> d.hash@ == id@ && d.message is Some,
        r matches Err(e) ==> e matches HooksError::Repository(_),
{
    let repo = match open_repo(repo_path) {
        Ok(repo) => repo,
        Err(m) => {
            return Err(HooksError::Repository(m));
        },
    };
    let mailmap = match repo_mailmap(&repo) {
        Ok(m) => m,
        Err(m) => {
            return Err(HooksError::Repository(m));
        },
    };
    let commit = match find_commit(&repo, id) {
        Ok(c) => c,
        Err(m) => {
            return Err(HooksError::Repository(m));
        },
    };
    let author_raw = get_author_of_commit(&commit, &mailmap);
    let committer_raw = get_committer_of_commit(&commit, &mailmap);
    let author = CommitSignature::from(&author_raw);
    let committer = CommitSignature::from(&committer_raw);
    let bytes = commit_message_bytes(&commit);
    let msg = lossy_string(&bytes);
    let details = details_from_parts(author, committer, msg.as_str(), id.clone());
    Ok(details)
}

} // verus!
