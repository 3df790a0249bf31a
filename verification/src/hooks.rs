//! The four hook operations: resolve the hook, run it when it is found,
//! and, for the message hooks, exchange the message buffer with the hook
//! process through a temporary file.

use vstd::prelude::*;
use crate::error::HooksError;
use crate::files::{tempfile_new, tempfile_write, tempfile_path, tempfile_read};
use crate::hookspath::HookPaths;
use crate::run::{HookResult, captured_outcome, lossy_string, lossy_of, push_all};

verus! {

/// Run the `pre-commit` hook, when one is found; an absent hook is a
/// successful, empty outcome.
pub fn hooks_pre_commit(repo_path: &String) -> (r: Result<HookResult, HooksError>)
    ensures
        r matches Ok(hr) ==> captured_outcome(hr),
{
    let paths = HookPaths::for_repo_at(repo_path, None, "pre-commit")?;
    if !paths.found() {
        return Ok(HookResult::Okay);
    }
    let args: Vec<String> = Vec::new();
    paths.run_hook(&args)
}

/// Run the `post-commit` hook, when one is found; an absent hook is a
/// successful, empty outcome.
pub fn hooks_post_commit(repo_path: &String) -> (r: Result<HookResult, HooksError>)
    ensures
        r matches Ok(hr) ==> captured_outcome(hr),
{
    let paths = HookPaths::for_repo_at(repo_path, None, "post-commit")?;
    if !paths.found() {
        return Ok(HookResult::Okay);
    }
    let args: Vec<String> = Vec::new();
    paths.run_hook(&args)
}

/// Run the `commit-msg` hook, when one is found, handing it `msg` in a
/// temporary file. Whatever the hook leaves in that file replaces `msg`,
/// whether or not the hook succeeded: a hook may rewrite the message even
/// while rejecting it.
pub fn hooks_commit_msg(repo_path: &String, msg: &mut String) -> (r: Result<
    HookResult,
    HooksError,
>)
    ensures
        r matches Ok(hr) ==> captured_outcome(hr),
        r is Ok ==> (final(msg)@ == old(msg)@ || exists|b: Seq<u8>| final(msg)@ == lossy_of(b)),
        r is Err ==> final(msg)@ == old(msg)@,
{
    let paths = HookPaths::for_repo_at(repo_path, None, "commit-msg")?;
    if !paths.found() {
        return Ok(HookResult::Okay);
    }
    let extra: Vec<String> = Vec::new();
    run_hook_with_message_file(&paths, msg, &extra)
}

/// Where the message being prepared came from; handed to the
/// `prepare-commit-msg` hook as its source discriminator.
pub enum PrepareCommitMsgSource {
    /// a message given on the command line
    Message,
    /// a commit template
    Template,
    /// a merge
    Merge,
    /// a squash
    Squash,
    /// an existing commit, named by its hex id
    Commit(String),
}

impl PrepareCommitMsgSource {
    /// The arguments this source adds after the message file: its token,
    /// and the commit's id when it names one.
    pub fn extra_args(&self) -> (r: Vec<String>)
        ensures
            self matches PrepareCommitMsgSource::Message ==> r@.len() == 1 && r@[0]@
                == "message"@,
            self matches PrepareCommitMsgSource::Template ==> r@.len() == 1 && r@[0]@
                == "template"@,
            self matches PrepareCommitMsgSource::Merge ==> r@.len() == 1 && r@[0]@ == "merge"@,
            self matches PrepareCommitMsgSource::Squash ==> r@.len() == 1 && r@[0]@ == "squash"@,
            self matches PrepareCommitMsgSource::Commit(id) ==> r@.len() == 2 && r@[0]@
                == "commit"@ && r@[1]@ == id@,
    {
        let mut out: Vec<String> = Vec::new();
        match self {
            PrepareCommitMsgSource::Message => out.push(String::from_str("message")),
            PrepareCommitMsgSource::Template => out.push(String::from_str("template")),
            PrepareCommitMsgSource::Merge => out.push(String::from_str("merge")),
            PrepareCommitMsgSource::Squash => out.push(String::from_str("squash")),
            PrepareCommitMsgSource::Commit(id) => {
                out.push(String::from_str("commit"));
                out.push(id.clone());
            },
        }
        out
    }
}

/// Run the `prepare-commit-msg` hook, when one is found, handing it `msg`
/// in a temporary file, the source token, and, when the source names a
/// commit, that commit's id. Whatever the hook leaves in the file replaces
/// `msg`, whether or not the hook succeeded.
pub fn hooks_prepare_commit_msg(
    repo_path: &String,
    source: PrepareCommitMsgSource,
    msg: &mut String,
) -> (r: Result<HookResult, HooksError>)
    ensures
        r matches Ok(hr) ==> captured_outcome(hr),
        r is Ok ==> (final(msg)@ == old(msg)@ || exists|b: Seq<u8>| final(msg)@ == lossy_of(b)),
        r is Err ==> final(msg)@ == old(msg)@,
{
    let paths = HookPaths::for_repo_at(repo_path, None, "prepare-commit-msg")?;
    if !paths.found() {
        return Ok(HookResult::Okay);
    }
    let extra = source.extra_args();
    run_hook_with_message_file(&paths, msg, &extra)
}

/// Write `msg` to a fresh temporary file, run the hook with that file's
/// path as the first argument and `extra` after it, then read the file
/// back into `msg` — also when the hook exited nonzero. The temporary file
/// is removed on every path out of here, spawn failure included.
fn run_hook_with_message_file(paths: &HookPaths, msg: &mut String, extra: &Vec<String>) -> (r:
    Result<HookResult, HooksError>)
    ensures
        r matches Ok(hr) ==> captured_outcome(hr),
        r is Ok ==> exists|b: Seq<u8>| final(msg)@ == lossy_of(b),
        r is Err ==> final(msg)@ == old(msg)@,
{
    let mut tf = match tempfile_new() {
        Ok(f) => f,
        Err(m) => {
            return Err(HooksError::Io(m));
        },
    };
    let bytes = msg.as_str().as_bytes_vec();
    match tempfile_write(&mut tf, &bytes) {
        Ok(()) => {},
        Err(m) => {
            return Err(HooksError::Io(m));
        },
    }
    let path = match tempfile_path(&tf) {
        Some(p) => p,
        None => {
            return Err(HooksError::PathToString);
        },
    };
    let mut args: Vec<String> = Vec::new();
    args.push(path);
    push_all(&mut args, extra);
    let res = match paths.run_hook(&args) {
        Ok(hr) => hr,
        Err(e) => {
            return Err(e);
        },
    };
    let back = match tempfile_read(&tf) {
        Ok(b) => b,
        Err(m) => {
            return Err(HooksError::Io(m));
        },
    };
    *msg = lossy_string(&back);
    proof {
        assert(exists|b: Seq<u8>| msg@ == lossy_of(b)) by {
            assert(msg@ == lossy_of(back@));
        }
    }
    Ok(res)
}

} // verus!
