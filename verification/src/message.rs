//! Commit messages, split into a subject line and an optional body.
//!
//! The split follows line semantics: lines end at a line feed, and a
//! carriage return directly before a line feed belongs to the terminator,
//! not to the line.

use vstd::prelude::*;
use crate::text::{str_chars, chars_string, subvec};

verus! {

/// `s` with every carriage-return/line-feed pair collapsed to a line feed.
pub open spec fn normalize_crlf(s: Seq<char>) -> Seq<char>
    decreases s.len(),
{
    if s.len() == 0 {
        Seq::<char>::empty()
    } else if s.len() >= 2 && s[0] == '\r' && s[1] == '\n' {
        seq!['\n'] + normalize_crlf(s.skip(2))
    } else {
        seq![s[0]] + normalize_crlf(s.skip(1))
    }
}

/// Position of the first line feed in `s`, or `s.len()` if there is none.
pub open spec fn nl_index(s: Seq<char>) -> int
    decreases s.len(),
{
    if s.len() == 0 {
        0
    } else if s[0] == '\n' {
        0
    } else {
        1 + nl_index(s.skip(1))
    }
}

/// The subject: the first line, with the terminator's carriage return
/// stripped.
pub open spec fn subject_of(s: Seq<char>) -> Seq<char> {
    let t = normalize_crlf(s);
    t.take(nl_index(t))
}

/// The body: the lines after the first, rejoined with line feeds, or
/// `None` when no line follows the first.
pub open spec fn body_of(s: Seq<char>) -> Option<Seq<char>> {
    let t = normalize_crlf(s);
    let k = nl_index(t);
    if k == t.len() {
        None
    } else {
        let r = t.skip(k + 1);
        if r.len() == 0 {
            None
        } else if r[r.len() - 1] == '\n' {
            Some(r.take(r.len() - 1))
        } else {
            Some(r)
        }
    }
}

/// The subject, followed by a line feed and the body when one is present.
pub open spec fn combine_spec(subject: Seq<char>, body: Option<Seq<char>>) -> Seq<char> {
    match body {
        Some(b) => subject + seq!['\n'] + b,
        None => subject,
    }
}

/// View of an optional string as an optional character sequence.
pub open spec fn opt_view(o: Option<String>) -> Option<Seq<char>> {
    match o {
        Some(s) => Some(s@),
        None => None,
    }
}

pub proof fn lemma_nl_index(s: Seq<char>)
    ensures
        0 <= nl_index(s) <= s.len(),
        nl_index(s) < s.len() ==> s[nl_index(s)] == '\n',
        forall|j: int| 0 <= j < nl_index(s) ==> s[j] != '\n',
    decreases s.len(),
{
    if s.len() == 0 {
    } else if s[0] == '\n' {
    } else {
        lemma_nl_index(s.skip(1));
        assert forall|j: int| 0 <= j < nl_index(s) implies s[j] != '\n' by {
            if j > 0 {
                assert(s.skip(1)[j - 1] == s[j]);
            }
        }
        if nl_index(s) < s.len() {
            assert(s.skip(1)[nl_index(s) - 1] == s[nl_index(s)]);
        }
    }
}

pub proof fn lemma_normalize_last(s: Seq<char>)
    requires
        s.len() > 0,
    ensures
        normalize_crlf(s).len() > 0,
        (normalize_crlf(s)[normalize_crlf(s).len() - 1] == '\n') <==> (s[s.len() - 1] == '\n'),
    decreases s.len(),
{
    if s.len() >= 2 && s[0] == '\r' && s[1] == '\n' {
        let rest = s.skip(2);
        if rest.len() == 0 {
            assert(normalize_crlf(rest) =~= Seq::<char>::empty());
            assert(normalize_crlf(s) =~= seq!['\n']);
        } else {
            lemma_normalize_last(rest);
            assert(rest[rest.len() - 1] == s[s.len() - 1]);
            let t = normalize_crlf(s);
            assert(t[t.len() - 1] == normalize_crlf(rest)[normalize_crlf(rest).len() - 1]);
        }
    } else {
        let rest = s.skip(1);
        if rest.len() == 0 {
            assert(normalize_crlf(rest) =~= Seq::<char>::empty());
            assert(normalize_crlf(s) =~= seq![s[0]]);
        } else {
            lemma_normalize_last(rest);
            assert(rest[rest.len() - 1] == s[s.len() - 1]);
            let t = normalize_crlf(s);
            assert(t[t.len() - 1] == normalize_crlf(rest)[normalize_crlf(rest).len() - 1]);
        }
    }
}

/// A commit message for display: the first line as the subject, the
/// remaining lines, when there are any, as the body.
#[derive(Default, Clone)]
pub struct CommitMessage {
    /// first line
    pub subject: String,
    /// remaining lines if more than one
    pub body: Option<String>,
}

fn normalize_vec(cs: &Vec<char>) -> (r: Vec<char>)
    ensures
        r@ == normalize_crlf(cs@),
{
    let mut out: Vec<char> = Vec::new();
    let mut i: usize = 0;
    proof {
        assert(cs@.skip(0) =~= cs@);
        assert(out@ + normalize_crlf(cs@) =~= normalize_crlf(cs@));
    }
    while i < cs.len()
        invariant
            i <= cs@.len(),
            normalize_crlf(cs@) == out@ + normalize_crlf(cs@.skip(i as int)),
        decreases cs@.len() - i,
    {
        let ghost pre = out@;
        let ghost suf = cs@.skip(i as int);
        if cs[i] == '\r' && i + 1 < cs.len() && cs[i + 1] == '\n' {
            out.push('\n');
            proof {
                assert(suf.len() >= 2 && suf[0] == '\r' && suf[1] == '\n');
                assert(normalize_crlf(suf) == seq!['\n'] + normalize_crlf(suf.skip(2)));
                assert(suf.skip(2) =~= cs@.skip(i + 2));
                assert(pre + normalize_crlf(suf) =~= out@ + normalize_crlf(cs@.skip(i + 2)));
            }
            i = i + 2;
        } else {
            let c = cs[i];
            out.push(c);
            proof {
                assert(suf.len() > 0 && suf[0] == c);
                assert(!(suf.len() >= 2 && suf[0] == '\r' && suf[1] == '\n'));
                assert(normalize_crlf(suf) == seq![c] + normalize_crlf(suf.skip(1)));
                assert(suf.skip(1) =~= cs@.skip(i + 1));
                assert(pre + normalize_crlf(suf) =~= out@ + normalize_crlf(cs@.skip(i + 1)));
            }
            i = i + 1;
        }
    }
    proof {
        assert(cs@.skip(i as int) =~= Seq::<char>::empty());
        assert(out@ + normalize_crlf(cs@.skip(i as int)) =~= out@);
    }
    out
}

fn find_nl_vec(t: &Vec<char>) -> (k: usize)
    ensures
        k == nl_index(t@),
        k <= t@.len(),
{
    proof {
        lemma_nl_index(t@);
    }
    let mut i: usize = 0;
    while i < t.len()
        invariant
            i <= t@.len(),
            forall|j: int| 0 <= j < i ==> t@[j] != '\n',
        decreases t@.len() - i,
    {
        if t[i] == '\n' {
            proof {
                lemma_nl_index_at(t@, i as int);
            }
            return i;
        }
        i = i + 1;
    }
    proof {
        lemma_nl_index_at(t@, i as int);
    }
    i
}

proof fn lemma_nl_index_at(t: Seq<char>, i: int)
    requires
        0 <= i <= t.len(),
        forall|j: int| 0 <= j < i ==> t[j] != '\n',
        i == t.len() || t[i] == '\n',
    ensures
        nl_index(t) == i,
    decreases t.len(),
{
    if t.len() == 0 {
    } else if t[0] == '\n' {
        assert(i == 0);
    } else {
        assert(i > 0);
        assert forall|j: int| 0 <= j < i - 1 implies t.skip(1)[j] != '\n' by {
            assert(t.skip(1)[j] == t[j + 1]);
        }
        if i < t.len() {
            assert(t.skip(1)[i - 1] == t[i]);
        }
        lemma_nl_index_at(t.skip(1), i - 1);
    }
}

impl CommitMessage {
    /// Split `s` into the subject line and the optional body.
    pub fn from(s: &str) -> (r: CommitMessage)
        ensures
            r.subject@ == subject_of(s@),
            opt_view(r.body) == body_of(s@),
            forall|i: int| 0 <= i < r.subject@.len() ==> r.subject@[i] != '\n',
    {
        let cs = str_chars(s);
        let t = normalize_vec(&cs);
        proof {
            lemma_nl_index(t@);
        }
        let k = find_nl_vec(&t);
        let subj_vec = subvec(&t, 0, k);
        proof {
            assert(t@.subrange(0, k as int) =~= t@.take(k as int));
        }
        let subject = chars_string(&subj_vec);
        let body: Option<String> = if k == t.len() {
            None
        } else {
            let rest = subvec(&t, k + 1, t.len());
            proof {
                assert(t@.subrange(k + 1 as int, t@.len() as int) =~= t@.skip(k + 1));
            }
            if rest.len() == 0 {
                None
            } else if rest[rest.len() - 1] == '\n' {
                let b = subvec(&rest, 0, rest.len() - 1);
                proof {
                    assert(rest@.subrange(0, rest@.len() - 1) =~= rest@.take(rest@.len() - 1));
                }
                Some(chars_string(&b))
            } else {
                Some(chars_string(&rest))
            }
        };
        CommitMessage { subject, body }
    }

    /// The whole message: the subject, and the body after a line feed when
    /// one is present.
    pub fn combine(self) -> (r: String)
        ensures
            r@ == combine_spec(self.subject@, opt_view(self.body)),
    {
        match self.body {
            Some(b) => {
                let mut s = self.subject;
                s.append("\n");
                s.append(b.as_str());
                proof {
                    reveal_strlit("\n");
                    assert("\n"@ =~= seq!['\n']);
                }
                s
            },
            None => self.subject,
        }
    }
}

/// Splitting and recombining reproduces the message, with every
/// carriage-return/line-feed pair collapsed to a line feed; this holds for
/// every message that does not end in a line feed.
pub proof fn lemma_combine_inverts_split(s: Seq<char>)
    requires
        s.len() == 0 || s[s.len() - 1] != '\n',
    ensures
        combine_spec(subject_of(s), body_of(s)) == normalize_crlf(s),
{
    let t = normalize_crlf(s);
    lemma_nl_index(t);
    let k = nl_index(t);
    if s.len() == 0 {
        assert(t =~= Seq::<char>::empty());
        assert(combine_spec(subject_of(s), body_of(s)) =~= t);
    } else {
        lemma_normalize_last(s);
        assert(t[t.len() - 1] != '\n');
        if k == t.len() {
            assert(t.take(k) =~= t);
        } else {
            let r = t.skip(k + 1);
            if r.len() == 0 {
                assert(t[t.len() - 1] == t[k]);
                assert(false);
            }
            assert(r[r.len() - 1] == t[t.len() - 1]);
            assert(body_of(s) == Some(r));
            assert(t.take(k) + seq!['\n'] + r =~= t);
        }
    }
}

} // verus!
