use git_hooks::details::{details_from_parts, CommitSignature};
use git_hooks::hookspath::{join_path, parent_dir, trim_trailing_slashes};
use git_hooks::message::CommitMessage;
use git_hooks::run::{sh_invocation, sh_path, CmdOutput, HookResult};

#[test]
fn test_msg_linefeeds() {
    let msg = CommitMessage::from("foo\nbar\r\ntest");

    assert_eq!(msg.subject, String::from("foo"));
    assert_eq!(msg.body, Some(String::from("bar\ntest")));
}

#[test]
fn test_commit_message_combine() {
    let msg = CommitMessage::from("foo\nbar\r\ntest");

    assert_eq!(msg.combine(), String::from("foo\nbar\ntest"));
}

#[test]
fn test_msg_empty() {
    let msg = CommitMessage::from("");

    assert_eq!(msg.subject, String::new());
    assert_eq!(msg.body, None);
}

#[test]
fn test_msg_single_line_keeps_no_body() {
    let msg = CommitMessage::from("foo\n");

    assert_eq!(msg.subject, String::from("foo"));
    assert_eq!(msg.body, None);
}

#[test]
fn test_msg_blank_second_line_is_empty_body() {
    let msg = CommitMessage::from("foo\n\n");

    assert_eq!(msg.subject, String::from("foo"));
    assert_eq!(msg.body, Some(String::new()));
}

#[test]
fn test_msg_trailing_carriage_return_kept() {
    let msg = CommitMessage::from("foo\nbar\r");

    assert_eq!(msg.subject, String::from("foo"));
    assert_eq!(msg.body, Some(String::from("bar\r")));
}

#[test]
fn test_combine_without_body_is_subject() {
    let msg = CommitMessage::from("foo");

    assert_eq!(msg.combine(), String::from("foo"));
}

#[test]
fn test_committer_omitted_when_identical() {
    let a = CommitSignature {
        name: String::from("name"),
        email: String::from("email"),
        time: 42,
    };
    let b = a.clone();
    let details = details_from_parts(a, b, "subject", String::from("0123456789abcdef"));
    assert!(details.committer.is_none());
}

#[test]
fn test_committer_kept_on_any_difference() {
    let a = CommitSignature {
        name: String::from("name"),
        email: String::from("email"),
        time: 42,
    };
    let mut b = a.clone();
    b.time = 43;
    let details = details_from_parts(a, b.clone(), "subject", String::from("0123456789abcdef"));
    assert_eq!(details.committer, Some(b));
}

#[test]
fn test_short_hash_is_first_seven() {
    let details = details_from_parts(
        CommitSignature::default(),
        CommitSignature {
            name: String::from("x"),
            email: String::new(),
            time: 0,
        },
        "m",
        String::from("0123456789abcdef"),
    );
    assert_eq!(details.short_hash(), "0123456");
}

#[test]
fn test_hook_output_success_is_okay_whatever_was_printed() {
    let out = CmdOutput {
        success: true,
        stdout: b"noise".to_vec(),
        stderr: b"more noise".to_vec(),
    };
    assert_eq!(HookResult::from_output(&out), HookResult::Okay);
}

#[test]
fn test_hook_output_failure_concatenates_stdout_then_stderr() {
    let out = CmdOutput {
        success: false,
        stdout: b"out".to_vec(),
        stderr: b"err".to_vec(),
    };
    assert_eq!(
        HookResult::from_output(&out),
        HookResult::NotOk(String::from("outerr"))
    );
}

#[test]
fn test_hook_output_invalid_bytes_decoded_leniently() {
    let out = CmdOutput {
        success: false,
        stdout: vec![0xff, b'a'],
        stderr: Vec::new(),
    };
    assert_eq!(
        HookResult::from_output(&out),
        HookResult::NotOk(String::from("\u{FFFD}a"))
    );
}

#[test]
fn test_sh_invocation_quotes_embedded_quote() {
    let cmd = sh_invocation(&String::from("bla 'x"));
    assert_eq!(cmd, String::from("'bla '\\''x' \"$@\""));
}

#[test]
fn test_sh_invocation_plain_path() {
    let cmd = sh_invocation(&String::from("/a/hook"));
    assert_eq!(cmd, String::from("'/a/hook' \"$@\""));
}

#[test]
fn test_sh_path_is_sh() {
    assert_eq!(sh_path(), String::from("sh"));
}

#[test]
fn test_join_path_adds_separator_once() {
    assert_eq!(join_path("a", "b"), String::from("a/b"));
    assert_eq!(join_path("a/", "b"), String::from("a/b"));
}

#[test]
fn test_trim_trailing_slashes() {
    assert_eq!(trim_trailing_slashes("foo//"), String::from("foo"));
    assert_eq!(trim_trailing_slashes("foo"), String::from("foo"));
    assert_eq!(trim_trailing_slashes("///"), String::new());
}

#[test]
fn test_parent_dir() {
    assert_eq!(parent_dir("/a/b"), String::from("/a"));
    assert_eq!(parent_dir("/a"), String::from("/"));
    assert_eq!(parent_dir("a"), String::from("."));
    assert_eq!(parent_dir("a/b/"), String::from("a/b"));
}
