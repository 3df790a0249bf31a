//! Resolution of the file that should be treated as "the hook", following
//! the same precedence as the git command line: a configured
//! `core.hooksPath` fully overrides the search; otherwise the default
//! hooks directory is searched first, then any extra subdirectories.

use vstd::prelude::*;
use crate::error::HooksError;
use crate::files::{path_exists, file_is_executable, expand_path};
use crate::gitio::{open_repo, repo_workdir, repo_git_path, repo_config, config_get_string};
use crate::text::{str_chars, chars_string, subvec};

verus! {

/// `base` and `name` joined with a path separator; a separator already at
/// the end of `base` is reused.
pub open spec fn join_path_spec(base: Seq<char>, name: Seq<char>) -> Seq<char> {
    if base.len() > 0 && base[base.len() - 1] == '/' {
        base + name
    } else {
        base + seq!['/'] + name
    }
}

/// `s` with every trailing path separator removed.
pub open spec fn trim_slashes_spec(s: Seq<char>) -> Seq<char>
    decreases s.len(),
{
    if s.len() == 0 {
        s
    } else if s[s.len() - 1] == '/' {
        trim_slashes_spec(s.take(s.len() - 1))
    } else {
        s
    }
}

/// The hook's place in the default hooks directory of the repository.
pub open spec fn default_hook_spec(git_dir: Seq<char>, hook: Seq<char>) -> Seq<char> {
    join_path_spec(join_path_spec(git_dir, "hooks"@), hook)
}

/// The hook's place in the extra subdirectory `sub` of the repository,
/// with trailing separators of `sub` trimmed.
pub open spec fn search_candidate_spec(git_dir: Seq<char>, sub: Seq<char>, hook: Seq<char>) -> Seq<
    char,
> {
    join_path_spec(join_path_spec(git_dir, trim_slashes_spec(sub)), hook)
}

/// `base` and `name` joined with a path separator.
pub fn join_path(base: &str, name: &str) -> (r: String)
    ensures
        r@ == join_path_spec(base@, name@),
{
    let cs = str_chars(base);
    let mut r = base.to_owned();
    if !(cs.len() > 0 && cs[cs.len() - 1] == '/') {
        r.append("/");
    }
    r.append(name);
    proof {
        reveal_strlit("/");
        assert("/"@ =~= seq!['/']);
        if cs@.len() > 0 && cs@[cs@.len() - 1] == '/' {
            assert(r@ =~= base@ + name@);
        } else {
            assert(r@ =~= base@ + seq!['/'] + name@);
        }
    }
    r
}

/// `s` with every trailing path separator removed.
pub fn trim_trailing_slashes(s: &str) -> (r: String)
    ensures
        r@ == trim_slashes_spec(s@),
{
    let cs = str_chars(s);
    let mut end: usize = cs.len();
    proof {
        assert(cs@.take(end as int) =~= cs@);
    }
    while end > 0 && cs[end - 1] == '/'
        invariant
            end <= cs@.len(),
            trim_slashes_spec(cs@) == trim_slashes_spec(cs@.take(end as int)),
        decreases end,
    {
        proof {
            let t = cs@.take(end as int);
            assert(t[t.len() - 1] == '/');
            assert(t.take(t.len() - 1) =~= cs@.take(end - 1));
        }
        end = end - 1;
    }
    let v = subvec(&cs, 0, end);
    proof {
        let t = cs@.take(end as int);
        assert(cs@.subrange(0, end as int) =~= t);
        if t.len() > 0 {
            assert(t[t.len() - 1] != '/');
        }
        assert(trim_slashes_spec(t) == t);
    }
    chars_string(&v)
}

/// Index of the last path separator in `s`, or -1 when there is none.
pub open spec fn last_slash(s: Seq<char>) -> int
    decreases s.len(),
{
    if s.len() == 0 {
        -1
    } else if s[s.len() - 1] == '/' {
        s.len() - 1
    } else {
        last_slash(s.take(s.len() - 1))
    }
}

/// The directory that holds the file at `s`: everything before the last
/// separator; the root when that separator comes first, and the current
/// directory when there is none.
pub open spec fn parent_dir_spec(s: Seq<char>) -> Seq<char> {
    let k = last_slash(s);
    if k < 0 {
        seq!['.']
    } else if k == 0 {
        seq!['/']
    } else {
        s.take(k)
    }
}

/// The directory that holds the file at `path`.
pub fn parent_dir(path: &str) -> (r: String)
    ensures
        r@ == parent_dir_spec(path@),
{
    let cs = str_chars(path);
    let mut end: usize = cs.len();
    proof {
        assert(cs@.take(end as int) =~= cs@);
    }
    while end > 0 && cs[end - 1] != '/'
        invariant
            end <= cs@.len(),
            last_slash(cs@) == last_slash(cs@.take(end as int)),
        decreases end,
    {
        proof {
            let t = cs@.take(end as int);
            assert(t[t.len() - 1] != '/');
            assert(t.take(t.len() - 1) =~= cs@.take(end - 1));
        }
        end = end - 1;
    }
    if end == 0 {
        proof {
            assert(cs@.take(0) =~= Seq::<char>::empty());
            reveal_strlit(".");
            assert("."@ =~= seq!['.']);
        }
        String::from_str(".")
    } else if end == 1 {
        proof {
            let t = cs@.take(1);
            assert(t[t.len() - 1] == '/');
            assert(last_slash(cs@) == 0);
            reveal_strlit("/");
            assert("/"@ =~= seq!['/']);
        }
        String::from_str("/")
    } else {
        proof {
            let t = cs@.take(end as int);
            assert(t[t.len() - 1] == '/');
            assert(last_slash(cs@) == end - 1);
            assert(cs@.subrange(0, end - 1) =~= cs@.take(end - 1));
        }
        let v = subvec(&cs, 0, end - 1);
        chars_string(&v)
    }
}

/// Write `hook_script` to `path` and mark the file executable, so that a
/// later resolution finds it; support for setting hooks up. Says whether
/// every step succeeded.
pub fn create_hook_in_path(path: &String, hook_script: &Vec<u8>) -> (r: bool)
{
    let dir = parent_dir(path.as_str());
    match crate::files::tempfile_new_in(&dir) {
        Ok(mut f) => {
            match crate::files::tempfile_write(&mut f, hook_script) {
                Ok(()) => {},
                Err(_) => {
                    return false;
                },
            }
            if !crate::files::tempfile_persist(f, path) {
                return false;
            }
            crate::files::set_exec_bit(path)
        },
        Err(_) => false,
    }
}

/// The resolved paths of one hook invocation: the repository's own
/// directory, the file to treat as the hook, and the directory the hook
/// will run in.
pub struct HookPaths {
    /// the repository's git directory
    pub git: String,
    /// the resolved hook file; it need not exist, see `found`
    pub hook: String,
    /// the work-tree root, or the git directory for a bare repository
    pub pwd: String,
}

/// The places searched for the hook, in order: its default location, then
/// its place under each entry of `other_paths`.
pub fn candidate_paths(git_dir: &String, other_paths: Option<&Vec<String>>, hook: &str) -> (r: Vec<
    String,
>)
    ensures
        r@.len() == 1 + (if other_paths is Some {
            other_paths->0@.len()
        } else {
            0
        }),
        r@[0]@ == default_hook_spec(git_dir@, hook@),
        forall|i: int|
            1 <= i < r@.len() ==> r@[i]@ == search_candidate_spec(
                git_dir@,
                other_paths->0@[i - 1]@,
                hook@,
            ),
{
    let mut out: Vec<String> = Vec::new();
    let default_dir = join_path(git_dir.as_str(), "hooks");
    out.push(join_path(default_dir.as_str(), hook));
    if let Some(others) = other_paths {
        let mut i: usize = 0;
        while i < others.len()
            invariant
                i <= others@.len(),
                other_paths is Some,
                others@ == other_paths->0@,
                out@.len() == 1 + i,
                out@[0]@ == default_hook_spec(git_dir@, hook@),
                forall|j: int|
                    1 <= j < out@.len() ==> out@[j]@ == search_candidate_spec(
                        git_dir@,
                        others@[j - 1]@,
                        hook@,
                    ),
            decreases others@.len() - i,
        {
            let trimmed = trim_trailing_slashes(others[i].as_str());
            let dir = join_path(git_dir.as_str(), trimmed.as_str());
            out.push(join_path(dir.as_str(), hook));
            i = i + 1;
        }
    }
    out
}

/// The first of `candidates` marked present, or the first candidate of all
/// when none is: the caller's default location stands in.
pub fn pick_first_present(candidates: &Vec<String>, present: &Vec<bool>) -> (r: String)
    requires
        candidates@.len() == present@.len(),
        candidates@.len() >= 1,
    ensures
        (exists|j: int| 0 <= j < present@.len() && present@[j]) ==> exists|j: int|
            0 <= j < candidates@.len() && present@[j] && r@ == candidates@[j]@ && (forall|i: int|
                0 <= i < j ==> !present@[i]),
        !(exists|j: int| 0 <= j < present@.len() && present@[j]) ==> r@ == candidates@[0]@,
{
    let mut i: usize = 0;
    while i < candidates.len()
        invariant
            i <= candidates@.len(),
            candidates@.len() == present@.len(),
            forall|j: int| 0 <= j < i ==> !present@[j],
        decreases candidates@.len() - i,
    {
        if present[i] {
            let r = candidates[i].clone();
            proof {
                let w = i as int;
                assert(exists|j: int|
                    0 <= j < candidates@.len() && present@[j] && r@ == candidates@[j]@ && (
                    forall|i2: int| 0 <= i2 < j ==> !present@[i2])) by {
                    assert(0 <= w < candidates@.len() && present@[w] && r@ == candidates@[w]@ && (
                    forall|i2: int| 0 <= i2 < w ==> !present@[i2]));
                }
            }
            return r;
        }
        i = i + 1;
    }
    let r = candidates[0].clone();
    r
}

/// The default hook location, searched first, then each entry of
/// `other_paths` under the git directory; the first candidate that exists
/// wins, and the default location stands in when none does.
pub fn find_hook(git_dir: &String, other_paths: Option<&Vec<String>>, hook: &str) -> (r: String)
    ensures
        r@ == default_hook_spec(git_dir@, hook@) || (other_paths is Some && exists|i: int|
            0 <= i < other_paths->0@.len() && r@ == search_candidate_spec(
                git_dir@,
                other_paths->0@[i]@,
                hook@,
            )),
{
    let candidates = candidate_paths(git_dir, other_paths, hook);
    let mut present: Vec<bool> = Vec::new();
    let mut i: usize = 0;
    while i < candidates.len()
        invariant
            i <= candidates@.len(),
            present@.len() == i,
        decreases candidates@.len() - i,
    {
        present.push(path_exists(&candidates[i]));
        i = i + 1;
    }
    let r = pick_first_present(&candidates, &present);
    proof {
        if exists|j: int| 0 <= j < present@.len() && present@[j] {
            let j = choose|j: int|
                0 <= j < candidates@.len() && present@[j] && r@ == candidates@[j]@ && (forall|
                    i2: int,
                | 0 <= i2 < j ==> !present@[i2]);
            if j >= 1 {
                let w = j - 1;
                assert(exists|i: int|
                    0 <= i < other_paths->0@.len() && r@ == search_candidate_spec(
                        git_dir@,
                        other_paths->0@[i]@,
                        hook@,
                    )) by {
                    assert(0 <= w < other_paths->0@.len() && r@ == search_candidate_spec(
                        git_dir@,
                        other_paths->0@[w]@,
                        hook@,
                    ));
                }
            }
        }
    }
    r
}

impl HookPaths {
    /// Resolve the paths for `hook`. A configured `core.hooksPath` always
    /// takes precedence: its join with `hook` is expanded and returned
    /// whether or not the file exists, and no other location is searched.
    /// Without it, the default hooks directory and then each entry of
    /// `other_paths` are searched, and the default location stands in when
    /// no candidate exists. `pwd` is the work-tree root, or the git
    /// directory for a bare repository.
    pub fn new(repo: &git2::Repository, other_paths: Option<&Vec<String>>, hook: &str) -> (r:
        Result<HookPaths, HooksError>)
        ensures
            r matches Err(e) ==> !(e is Io),
    {
        let pwd = match repo_workdir(repo) {
            Some(w) => w,
            None => match repo_git_path(repo) {
                Some(p) => p,
                None => {
                    return Err(HooksError::PathToString);
                },
            },
        };
        let git_dir = match repo_git_path(repo) {
            Some(p) => p,
            None => {
                return Err(HooksError::PathToString);
            },
        };
        let config = match repo_config(repo) {
            Ok(c) => c,
            Err(m) => {
                return Err(HooksError::Repository(m));
            },
        };
        match config_get_string(&config, "core.hooksPath") {
            Some(config_path) => {
                let joined = join_path(config_path.as_str(), hook);
                match expand_path(&joined) {
                    Ok(expanded) => Ok(HookPaths { git: git_dir, hook: expanded, pwd }),
                    Err(m) => Err(HooksError::PathExpansion(m)),
                }
            },
            None => {
                let hook_file = find_hook(&git_dir, other_paths, hook);
                Ok(HookPaths { git: git_dir, hook: hook_file, pwd })
            },
        }
    }

    /// Resolve the paths for `hook` in the repository that contains
    /// `repo_path`.
    pub fn for_repo_at(repo_path: &String, other_paths: Option<&Vec<String>>, hook: &str) -> (r:
        Result<HookPaths, HooksError>)
        ensures
            r matches Err(e) ==> !(e is Io),
    {
        match open_repo(repo_path) {
            Ok(repo) => HookPaths::new(&repo, other_paths, hook),
            Err(m) => Err(HooksError::Repository(m)),
        }
    }

    /// Was a hook file found: it exists on disk and is marked executable.
    pub fn found(&self) -> (r: bool)
    {
        path_exists(&self.hook) && file_is_executable(&self.hook)
    }
}

} // verus!
