use git_hooks::details::get_commit_details;
use git_hooks::error::HooksError;
use git_hooks::hooks::{
    hooks_commit_msg, hooks_post_commit, hooks_pre_commit, hooks_prepare_commit_msg,
    PrepareCommitMsgSource,
};
use git_hooks::hookspath::{create_hook_in_path, HookPaths};
use git_hooks::run::HookResult;

fn repo_init_with_prefix(prefix: &str) -> (tempfile::TempDir, git2::Repository) {
    let td = tempfile::Builder::new().prefix(prefix).tempdir().unwrap();
    let repo = git2::Repository::init(td.path()).unwrap();
    {
        let mut config = repo.config().unwrap();
        config.set_str("user.name", "name").unwrap();
        config.set_str("user.email", "email").unwrap();
    }
    (td, repo)
}

fn workdir_string(repo: &git2::Repository) -> String {
    repo.workdir().unwrap().to_str().unwrap().to_string()
}

fn create_hook(repo: &git2::Repository, name: &str, script: &[u8]) {
    let path = repo.path().join("hooks").join(name);
    let path_string = path.to_str().unwrap().to_string();
    assert!(create_hook_in_path(&path_string, &script.to_vec()));
}

#[test]
fn test_no_hook_found_returns_okay() {
    let (_td, repo) = repo_init_with_prefix("repo $#  ");
    let repo_path = workdir_string(&repo);

    let paths = HookPaths::for_repo_at(&repo_path, None, "pre-commit").unwrap();
    assert!(!paths.found());

    assert_eq!(hooks_pre_commit(&repo_path).unwrap(), HookResult::Okay);
}

#[test]
fn test_hooks_path_set_without_hook_still_wins() {
    let (_td, repo) = repo_init_with_prefix("repo $#  ");
    let repo_path = workdir_string(&repo);

    let hooks_dir = tempfile::Builder::new()
        .prefix("empty_hooks")
        .tempdir()
        .unwrap();
    let hooks_dir_string = hooks_dir.path().to_str().unwrap().to_string();
    let mut config = repo.config().unwrap();
    config.set_str("core.hooksPath", &hooks_dir_string).unwrap();

    // even a present default hook is not considered any more
    create_hook(&repo, "commit-msg", b"#!/bin/sh\nexit 1\n");

    let paths = HookPaths::for_repo_at(&repo_path, None, "commit-msg").unwrap();
    assert!(paths.hook.starts_with(&hooks_dir_string));
    assert!(!paths.found());

    let mut msg = String::from("test");
    assert_eq!(
        hooks_commit_msg(&repo_path, &mut msg).unwrap(),
        HookResult::Okay
    );
    assert_eq!(msg, String::from("test"));
}

#[test]
fn test_hook_exit_zero_is_okay_despite_output() {
    let (_td, repo) = repo_init_with_prefix("repo $#  ");
    let repo_path = workdir_string(&repo);

    create_hook(
        &repo,
        "pre-commit",
        b"#!/bin/sh\necho 'all good'\necho 'noise' >&2\nexit 0\n",
    );

    assert_eq!(hooks_pre_commit(&repo_path).unwrap(), HookResult::Okay);
}

#[test]
fn test_hook_without_shebang_runs_through_shell() {
    let (_td, repo) = repo_init_with_prefix("repo $#  ");
    let repo_path = workdir_string(&repo);

    create_hook(&repo, "pre-commit", b"echo 'no shebang here'\nexit 1\n");

    assert_eq!(
        hooks_pre_commit(&repo_path).unwrap(),
        HookResult::NotOk(String::from("no shebang here\n"))
    );
}

#[test]
fn test_post_commit_hook_reject_in_subfolder() {
    let (_td, repo) = repo_init_with_prefix("repo $#  ");
    let root = repo.workdir().unwrap();

    let hook = b"#!/bin/sh
	echo 'rejected'
	exit 1
	        ";

    create_hook(&repo, "post-commit", hook);

    let subfolder = tempfile::Builder::new()
        .prefix("foo")
        .tempdir_in(root)
        .unwrap();

    let res = hooks_post_commit(&subfolder.path().to_str().unwrap().to_string()).unwrap();

    assert_eq!(res, HookResult::NotOk(String::from("rejected\n")));
}

// make sure we run the hooks with the correct pwd.
// for non-bare repos this is the dir of the worktree
#[test]
fn test_pre_commit_workdir() {
    let (_td, repo) = repo_init_with_prefix("repo $#  ");
    let root = repo.workdir().unwrap();
    let repo_path = root.to_str().unwrap().to_string();

    let hook = b"#!/bin/sh
	echo \"$(pwd)\"
	exit 1
	        ";

    create_hook(&repo, "pre-commit", hook);
    let res = hooks_pre_commit(&repo_path).unwrap();
    if let HookResult::NotOk(res) = res {
        assert_eq!(
            std::path::Path::new(res.trim_end()),
            std::path::Path::new(&repo_path)
        );
    } else {
        assert!(false);
    }
}

// the hook must see the work-tree root as its current directory even when
// the caller sits in a subdirectory of the work-tree
#[test]
fn test_pre_commit_workdir_from_subfolder() {
    let (_td, repo) = repo_init_with_prefix("repo $#  ");
    let root = repo.workdir().unwrap();
    let repo_path = root.to_str().unwrap().to_string();

    let hook = b"#!/bin/sh
	echo \"$(pwd)\"
	exit 1
	        ";

    create_hook(&repo, "pre-commit", hook);

    let subfolder = tempfile::Builder::new()
        .prefix("foo")
        .tempdir_in(root)
        .unwrap();

    let res = hooks_pre_commit(&subfolder.path().to_str().unwrap().to_string()).unwrap();
    if let HookResult::NotOk(res) = res {
        assert_eq!(
            std::path::Path::new(res.trim_end()),
            std::path::Path::new(&repo_path)
        );
    } else {
        assert!(false);
    }
}

#[test]
fn test_hooks_commit_msg_reject_in_subfolder() {
    let (_td, repo) = repo_init_with_prefix("repo $#  ");
    let root = repo.workdir().unwrap();

    let hook = b"#!/bin/sh
	echo 'msg' > \"$1\"
	echo 'rejected'
	exit 1
	        ";

    create_hook(&repo, "commit-msg", hook);

    let subfolder = tempfile::Builder::new()
        .prefix("foo")
        .tempdir_in(root)
        .unwrap();

    let mut msg = String::from("test");
    let res = hooks_commit_msg(&subfolder.path().to_str().unwrap().to_string(), &mut msg).unwrap();

    assert_eq!(res, HookResult::NotOk(String::from("rejected\n")));

    assert_eq!(msg, String::from("msg\n"));
}

#[test]
fn test_hooks_commit_msg_reject_in_hooks_folder_githooks_moved_absolute() {
    let (_td, repo) = repo_init_with_prefix("bla '");
    let root = repo.workdir().unwrap();

    let hooks_folder = tempfile::Builder::new()
        .prefix("my_hooks")
        .tempdir_in(root)
        .unwrap();

    let mut config = repo.config().unwrap();
    config
        .set_str("core.hooksPath", hooks_folder.path().to_str().unwrap())
        .unwrap();

    let hook = b"#!/bin/sh
	echo 'msg' > \"$1\"
	echo 'rejected'
	exit 1
	        ";
    let hook_path = hooks_folder.path().join("commit-msg");
    assert!(create_hook_in_path(
        &hook_path.to_str().unwrap().to_string(),
        &hook.to_vec()
    ));

    let mut msg = String::from("test");
    let res = hooks_commit_msg(
        &hooks_folder.path().to_str().unwrap().to_string(),
        &mut msg,
    )
    .unwrap();
    assert_eq!(res, HookResult::NotOk(String::from("rejected\n")));

    assert_eq!(msg, String::from("msg\n"));
}

#[test]
fn test_prepare_commit_msg_gets_source_and_rewrites() {
    let (_td, repo) = repo_init_with_prefix("repo $#  ");
    let repo_path = workdir_string(&repo);

    // the hook replaces the message with its own arguments after the file
    let hook = b"#!/bin/sh
	printf '%s %s' \"$2\" \"$3\" > \"$1\"
	exit 0
	        ";
    create_hook(&repo, "prepare-commit-msg", hook);

    let mut msg = String::from("before");
    let res = hooks_prepare_commit_msg(
        &repo_path,
        PrepareCommitMsgSource::Commit(String::from("deadbeef")),
        &mut msg,
    )
    .unwrap();
    assert_eq!(res, HookResult::Okay);
    assert_eq!(msg, String::from("commit deadbeef"));
}

#[test]
fn test_prepare_commit_msg_source_tokens() {
    assert_eq!(PrepareCommitMsgSource::Message.extra_args(), vec![String::from("message")]);
    assert_eq!(PrepareCommitMsgSource::Template.extra_args(), vec![String::from("template")]);
    assert_eq!(PrepareCommitMsgSource::Merge.extra_args(), vec![String::from("merge")]);
    assert_eq!(PrepareCommitMsgSource::Squash.extra_args(), vec![String::from("squash")]);
}

#[test]
fn test_get_commit_details_basic() {
    let (_td, repo) = repo_init_with_prefix("repo d ");
    let repo_path = workdir_string(&repo);

    let mut index = repo.index().unwrap();
    let tree_id = index.write_tree().unwrap();
    let tree = repo.find_tree(tree_id).unwrap();
    let sig = repo.signature().unwrap();
    let cid = repo
        .commit(Some("HEAD"), &sig, &sig, "subject line\nbody here", &tree, &[])
        .unwrap();

    let details = get_commit_details(&repo_path, &cid.to_string()).unwrap();

    assert_eq!(details.author.name, String::from("name"));
    assert_eq!(details.author.email, String::from("email"));
    assert!(details.committer.is_none());
    assert_eq!(details.hash, cid.to_string());
    assert_eq!(details.short_hash(), &cid.to_string()[0..7]);
    let msg = details.message.unwrap();
    assert_eq!(msg.subject, String::from("subject line"));
    assert_eq!(msg.body, Some(String::from("body here")));
}

#[test]
fn test_get_commit_details_unknown_id_fails() {
    let (_td, repo) = repo_init_with_prefix("repo d ");
    let repo_path = workdir_string(&repo);

    let res = get_commit_details(
        &repo_path,
        &String::from("0000000000000000000000000000000000000000"),
    );
    assert!(matches!(res, Err(HooksError::Repository(_))));
}

#[test]
fn test_open_outside_repository_fails() {
    let td = tempfile::Builder::new().prefix("norepo").tempdir().unwrap();
    let path = td.path().to_str().unwrap().to_string();

    let res = hooks_pre_commit(&path);
    assert!(matches!(res, Err(HooksError::Repository(_))));
}

#[test]
fn test_unset_variable_in_hooks_path_fails_expansion() {
    let (_td, repo) = repo_init_with_prefix("repo $#  ");
    let repo_path = workdir_string(&repo);

    let mut config = repo.config().unwrap();
    config
        .set_str("core.hooksPath", "$GIT_HOOKS_SURELY_UNSET_VAR_XYZ/hooks")
        .unwrap();

    let res = hooks_pre_commit(&repo_path);
    assert!(matches!(res, Err(HooksError::PathExpansion(_))));
}

#[test]
fn test_spawn_failure_is_io_error() {
    let (_td, repo) = repo_init_with_prefix("repo $#  ");
    let repo_path = workdir_string(&repo);

    // a directory passes the executable check but cannot be spawned
    let paths = HookPaths {
        git: repo.path().to_str().unwrap().to_string(),
        hook: repo_path.clone(),
        pwd: repo_path,
    };
    let res = paths.run_hook(&Vec::new());
    assert!(matches!(res, Err(HooksError::Io(_))));
}

#[test]
fn test_run_hook_quoted_handles_quotes_in_path_and_args() {
    let (_td, repo) = repo_init_with_prefix("bla '");
    let repo_path = workdir_string(&repo);

    create_hook(
        &repo,
        "pre-commit",
        b"#!/bin/sh\nprintf '%s' \"$1\"\nexit 1\n",
    );

    let paths = HookPaths::for_repo_at(&repo_path, None, "pre-commit").unwrap();
    assert!(paths.found());

    let args = vec![String::from("arg one")];
    let res = paths.run_hook_quoted(&args).unwrap();
    assert_eq!(res, HookResult::NotOk(String::from("arg one")));
}

#[test]
fn test_bare_repo_hook_runs_in_git_dir() {
    let td = tempfile::Builder::new().prefix("bare").tempdir().unwrap();
    let repo = git2::Repository::init_bare(td.path()).unwrap();
    let repo_path = td.path().to_str().unwrap().to_string();

    create_hook(&repo, "post-commit", b"#!/bin/sh\necho \"$(pwd)\"\nexit 1\n");

    let res = hooks_post_commit(&repo_path).unwrap();
    if let HookResult::NotOk(out) = res {
        assert_eq!(
            std::path::Path::new(out.trim_end()),
            std::path::Path::new(&repo_path)
        );
    } else {
        assert!(false);
    }
}
