//! Running a resolved hook and turning what the process did into a
//! structured result.

use vstd::prelude::*;
use crate::error::HooksError;
use crate::hookspath::HookPaths;
use crate::text::str_chars;

verus! {

/// What a finished hook process left behind: whether it exited
/// successfully, and its captured output streams.
pub struct CmdOutput {
    /// exit status zero
    pub success: bool,
    /// captured standard output
    pub stdout: Vec<u8>,
    /// captured standard error
    pub stderr: Vec<u8>,
}

/// Why a process could not be spawned at all.
pub struct SpawnFailure {
    /// the operating system's error number, when there is one
    pub os_error: Option<i32>,
    /// a short description
    pub message: String,
}

/// The characters that lossy decoding makes of a byte sequence: invalid
/// sequences replaced, never an error. The result depends on the bytes
/// alone.
pub uninterp spec fn lossy_of(b: Seq<u8>) -> Seq<char>;

/// Relies on String::from_utf8_lossy: the bytes decoded leniently, with
/// invalid sequences replaced; empty input stays empty, and bytes that are
/// all plain ASCII (valid text) come through byte for byte.
#[verifier::external_body]
pub(crate) fn lossy_string(b: &Vec<u8>) -> (r: String)
    ensures
        r@ == lossy_of(b@),
        b@.len() == 0 ==> r@.len() == 0,
        (forall|i: int| 0 <= i < b@.len() ==> b@[i] < 128) ==> r@ == b@.map_values(
            |x: u8| x as char,
        ),
{
    String::from_utf8_lossy(b.as_slice()).to_string()
}

/// Relies on duct::cmd with dir, stdout_capture, stderr_capture, unchecked
/// and run: spawns `prog` with `args` in the directory `dir`, waits for it,
/// and captures both output streams; a nonzero exit is reported in the
/// output, not as an error. Fails only when the process could not be
/// spawned or waited for.
#[verifier::external_body]
fn spawn_capture(prog: &String, args: &Vec<String>, dir: &String) -> (r: Result<
    CmdOutput,
    SpawnFailure,
>)
{
    let expr = duct::cmd(prog.as_str(), args.clone()).dir(dir.as_str()).stdout_capture()
        .stderr_capture()
        .unchecked();
    match expr.run() {
        Ok(o) => Ok(CmdOutput { success: o.status.success(), stdout: o.stdout, stderr: o.stderr }),
        Err(e) => Err(SpawnFailure { os_error: e.raw_os_error(), message: e.to_string() }),
    }
}

/// The outcome of one hook invocation. A hook that is absent, or that ran
/// and exited zero, is `Okay`; one that ran and exited nonzero is `NotOk`
/// with its captured output. Neither is an error.
#[derive(Debug)]
pub enum HookResult {
    /// Everything went fine
    Okay,
    /// Hook returned error
    NotOk(String),
}

impl PartialEq for HookResult {
    fn eq(&self, other: &HookResult) -> (r: bool) {
        match self {
            HookResult::Okay => match other {
                HookResult::Okay => true,
                _ => false,
            },
            HookResult::NotOk(a) => match other {
                HookResult::NotOk(b) => *a == *b,
                _ => false,
            },
        }
    }
}

impl vstd::std_specs::cmp::PartialEqSpecImpl for HookResult {
    open spec fn obeys_eq_spec() -> bool {
        true
    }

    open spec fn eq_spec(&self, other: &HookResult) -> bool {
        ||| (*self is Okay && *other is Okay)
        ||| (*self matches HookResult::NotOk(a) && *other matches HookResult::NotOk(b) && a@
            == b@)
    }
}

/// The shape of every outcome of a hook that was actually run: fine, or
/// rejected with text that is the lossy decoding of some captured standard
/// output followed by that of some captured standard error.
pub open spec fn captured_outcome(hr: HookResult) -> bool {
    ||| hr is Okay
    ||| (hr matches HookResult::NotOk(t) && exists|so: Seq<u8>, se: Seq<u8>|
        t@ == lossy_of(so) + lossy_of(se))
}

impl HookResult {
    /// Exit status zero is `Okay`, whatever was printed; anything else is
    /// `NotOk` carrying the decoded standard output with the decoded
    /// standard error concatenated after it.
    pub fn from_output(out: &CmdOutput) -> (r: HookResult)
        ensures
            out.success ==> r == HookResult::Okay,
            !out.success ==> (r matches HookResult::NotOk(t) && t@ == lossy_of(out.stdout@)
                + lossy_of(out.stderr@)),
            captured_outcome(r),
    {
        if out.success {
            HookResult::Okay
        } else {
            let so = lossy_string(&out.stdout);
            let se = lossy_string(&out.stderr);
            let r = HookResult::NotOk(so.concat(se.as_str()));
            proof {
                assert(captured_outcome(r)) by {
                    assert(r matches HookResult::NotOk(t) && t@ == lossy_of(out.stdout@)
                        + lossy_of(out.stderr@));
                }
            }
            r
        }
    }
}

/// The command a shell runs to execute the hook at `hook`: the path in
/// single quotes, each embedded single quote closed, escaped and reopened,
/// followed by a positional-argument passthrough.
pub open spec fn quoted_chars(s: Seq<char>) -> Seq<char>
    decreases s.len(),
{
    if s.len() == 0 {
        Seq::<char>::empty()
    } else if s[0] == '\'' {
        seq!['\'', '\\', '\'', '\''] + quoted_chars(s.skip(1))
    } else {
        seq![s[0]] + quoted_chars(s.skip(1))
    }
}

/// The full shell command line for `hook`: see `quoted_chars`.
pub open spec fn sh_invocation_spec(hook: Seq<char>) -> Seq<char> {
    seq!['\''] + quoted_chars(hook) + seq!['\''] + seq![' ', '"', '$', '@', '"']
}

/// Build the shell command line that runs the hook at `hook_path` with the
/// shell's positional arguments passed through.
pub fn sh_invocation(hook_path: &String) -> (r: String)
    ensures
        r@ == sh_invocation_spec(hook_path@),
{
    let cs = str_chars(hook_path.as_str());
    let mut out: Vec<char> = Vec::new();
    out.push('\'');
    let mut i: usize = 0;
    proof {
        assert(cs@.skip(0) =~= cs@);
        assert(out@ =~= seq!['\''] + Seq::<char>::empty());
        assert(out@ + quoted_chars(cs@) =~= seq!['\''] + quoted_chars(cs@));
    }
    while i < cs.len()
        invariant
            i <= cs@.len(),
            seq!['\''] + quoted_chars(cs@) == out@ + quoted_chars(cs@.skip(i as int)),
        decreases cs@.len() - i,
    {
        let ghost pre = out@;
        let ghost suf = cs@.skip(i as int);
        let c = cs[i];
        if c == '\'' {
            out.push('\'');
            out.push('\\');
            out.push('\'');
            out.push('\'');
            proof {
                assert(quoted_chars(suf) == seq!['\'', '\\', '\'', '\''] + quoted_chars(
                    suf.skip(1),
                ));
                assert(suf.skip(1) =~= cs@.skip(i + 1));
                assert(pre + quoted_chars(suf) =~= out@ + quoted_chars(cs@.skip(i + 1)));
            }
        } else {
            out.push(c);
            proof {
                assert(quoted_chars(suf) == seq![c] + quoted_chars(suf.skip(1)));
                assert(suf.skip(1) =~= cs@.skip(i + 1));
                assert(pre + quoted_chars(suf) =~= out@ + quoted_chars(cs@.skip(i + 1)));
            }
        }
        i = i + 1;
    }
    proof {
        assert(cs@.skip(i as int) =~= Seq::<char>::empty());
        assert(out@ + quoted_chars(cs@.skip(i as int)) =~= out@);
    }
    out.push('\'');
    out.push(' ');
    out.push('"');
    out.push('$');
    out.push('@');
    out.push('"');
    let r = crate::text::chars_string(&out);
    proof {
        assert(r@ =~= sh_invocation_spec(hook_path@));
    }
    r
}

/// The shell used to run hooks that the system will not execute directly.
pub fn sh_path() -> (r: String)
    ensures
        r@ == "sh"@,
{
    String::from_str("sh")
}

pub(crate) fn push_all(dst: &mut Vec<String>, src: &Vec<String>)
    ensures
        final(dst)@ == old(dst)@ + src@,
{
    let mut j: usize = 0;
    proof {
        assert(dst@ =~= old(dst)@ + src@.subrange(0, 0));
    }
    while j < src.len()
        invariant
            j <= src@.len(),
            dst@ == old(dst)@ + src@.subrange(0, j as int),
        decreases src@.len() - j,
    {
        let ghost pre = dst@;
        dst.push(src[j].clone());
        proof {
            assert(src@.subrange(0, j + 1 as int) =~= src@.subrange(0, j as int).push(
                src@[j as int],
            ));
            assert(dst@ =~= old(dst)@ + src@.subrange(0, j + 1 as int));
        }
        j = j + 1;
    }
    proof {
        assert(src@.subrange(0, j as int) =~= src@);
    }
}

impl HookPaths {
    /// Run the resolved hook with `args`, in the directory `pwd`: the hook
    /// file is executed directly, and when the system refuses it for the
    /// lack of a recognizable executable format, it is run through the
    /// shell instead. Fails only when no process could be spawned at all.
    pub fn run_hook(&self, args: &Vec<String>) -> (r: Result<HookResult, HooksError>)
        ensures
            r matches Ok(hr) ==> captured_outcome(hr),
            r matches Err(e) ==> e is Io,
    {
        match self.spawn_direct(args) {
            Ok(out) => Ok(HookResult::from_output(&out)),
            Err(e) => {
                // the "exec format error" number
                let retry = match e.os_error {
                    Some(code) => code == 8i32,
                    None => false,
                };
                if retry {
                    self.run_hook_with_shell(args)
                } else {
                    Err(HooksError::Io(e.message))
                }
            },
        }
    }

    /// Run the resolved hook with `args` through the shell, handing it the
    /// hook file as its script argument.
    pub fn run_hook_with_shell(&self, args: &Vec<String>) -> (r: Result<HookResult, HooksError>)
        ensures
            r matches Ok(hr) ==> captured_outcome(hr),
            r matches Err(e) ==> e is Io,
    {
        let mut sh_args: Vec<String> = Vec::new();
        sh_args.push(self.hook.clone());
        push_all(&mut sh_args, args);
        let sh = sh_path();
        match self.spawn_in_pwd(&sh, &sh_args) {
            Ok(out) => Ok(HookResult::from_output(&out)),
            Err(e) => Err(HooksError::Io(e.message)),
        }
    }

    /// Run the resolved hook with `args` through a shell command line that
    /// quotes the hook path, for hosts without native script execution:
    /// the shell parses the quoted path and passes `args` through
    /// positionally.
    pub fn run_hook_quoted(&self, args: &Vec<String>) -> (r: Result<HookResult, HooksError>)
        ensures
            r matches Ok(hr) ==> captured_outcome(hr),
            r matches Err(e) ==> e is Io,
    {
        let cmdline = sh_invocation(&self.hook);
        let mut sh_args: Vec<String> = Vec::new();
        sh_args.push(String::from_str("-c"));
        sh_args.push(cmdline);
        sh_args.push(self.hook.clone());
        push_all(&mut sh_args, args);
        let sh = sh_path();
        match self.spawn_in_pwd(&sh, &sh_args) {
            Ok(out) => Ok(HookResult::from_output(&out)),
            Err(e) => Err(HooksError::Io(e.message)),
        }
    }

    fn spawn_direct(&self, args: &Vec<String>) -> (r: Result<CmdOutput, SpawnFailure>)
    {
        spawn_capture(&self.hook, args, &self.pwd)
    }

    fn spawn_in_pwd(&self, prog: &String, args: &Vec<String>) -> (r: Result<CmdOutput, SpawnFailure>)
    {
        spawn_capture(prog, args, &self.pwd)
    }
}

} // verus!
