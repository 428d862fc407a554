//! The normalized process-creation record and the command-line cleaning step.
//!
//! Instrumentation layers often report a command line that begins with a
//! redundant copy of the executable path, optionally wrapped in double quotes.
//! Cleaning removes exactly that redundant prefix (and the separating
//! character the reporting convention places after it) so the field holds
//! only the arguments portion; a command line that does not begin with the
//! path is left unchanged.

use vstd::prelude::*;
use vstd::string::StrSliceExecFns;

verus! {

/// One observed process-creation event, captured at the instant of creation.
///
/// The numeric identifiers are an instantaneous identity only: the OS reuses
/// them after a process exits, so neither field is a long-lived key, and
/// `parent_process_id` may name a process that has already exited or whose
/// identifier has been reused.
#[derive(Debug, Clone, PartialEq)]
pub struct Process {
    /// OS-assigned identifier of the new process; reusable after exit.
    pub process_id: u32,
    /// Identifier of the creating process at creation time.
    pub parent_process_id: u32,
    /// Image name of the executable backing the process; never empty.
    pub name: String,
    /// Absolute path to the image, when the OS could resolve it.
    pub executable_path: Option<String>,
    /// Command line as invoked, when one was visible to the instrumentation.
    pub command_line: Option<String>,
}

/// The mathematical value of a `Process`: the same fields, with each piece of
/// text as a sequence of characters.
#[verifier::ext_equal]
pub struct ProcessView {
    pub process_id: u32,
    pub parent_process_id: u32,
    pub name: Seq<char>,
    pub executable_path: Option<Seq<char>>,
    pub command_line: Option<Seq<char>>,
}

impl View for Process {
    type V = ProcessView;

    open spec fn view(&self) -> ProcessView {
        ProcessView {
            process_id: self.process_id,
            parent_process_id: self.parent_process_id,
            name: self.name@,
            executable_path: match self.executable_path {
                Some(p) => Some(p@),
                None => None,
            },
            command_line: match self.command_line {
                Some(c) => Some(c@),
                None => None,
            },
        }
    }
}

/// The quoted spelling of a path: a double quote, the path, a double quote.
pub open spec fn quoted_form(p: Seq<char>) -> Seq<char> {
    seq!['"'] + p + seq!['"']
}

/// What cleaning does to a command line `c` whose record carries the
/// executable path `p`:
/// - `c` starts with the quoted path: the quotes, the path and the one
///   character the convention places after the closing quote are removed
///   (when `c` is exactly the quoted path, everything is removed);
/// - `c` starts with the path followed by a space: the path and the
///   separating space are removed;
/// - `c` is exactly the path: everything is removed;
/// - otherwise `c` carries no redundant prefix and stays unchanged.
pub open spec fn spec_clean_cmd(c: Seq<char>, p: Seq<char>) -> Seq<char> {
    if quoted_form(p).is_prefix_of(c) {
        if p.len() + 3 <= c.len() {
            c.skip(p.len() as int + 3)
        } else {
            Seq::empty()
        }
    } else if (p + seq![' ']).is_prefix_of(c) {
        c.skip(p.len() as int + 1)
    } else if c == p {
        Seq::empty()
    } else {
        c
    }
}

/// What cleaning does to a whole record: when both the command line and the
/// executable path are present, the command line is cleaned; otherwise the
/// record is unchanged.
pub open spec fn spec_clean(r: ProcessView) -> ProcessView {
    match (r.command_line, r.executable_path) {
        (Some(c), Some(p)) => ProcessView { command_line: Some(spec_clean_cmd(c, p)), ..r },
        _ => r,
    }
}

/// Whether `p` occurs in `c` at character offset `off`.
fn matches_at(c: &str, p: &str, off: usize) -> (b: bool)
    requires
        off + p@.len() <= c@.len(),
    ensures
        b <==> c@.subrange(off as int, off + p@.len()) == p@,
{
    let n = c.unicode_len();
    let m = p.unicode_len();
    let mut i: usize = 0;
    while i < m
        invariant
            n == c@.len(),
            m == p@.len(),
            off + m <= n,
            0 <= i <= m,
            forall|j: int| 0 <= j < i ==> c@[off + j] == p@[j],
        decreases m - i,
    {
        if c.get_char(off + i) != p.get_char(i) {
            proof {
                assert(c@.subrange(off as int, off + p@.len())[i as int] == c@[off + i]);
            }
            return false;
        }
        i += 1;
    }
    proof {
        assert(c@.subrange(off as int, off + p@.len()) =~= p@);
    }
    true
}

/// The quoted form of `p` being a prefix of `c` pins these characters of `c`.
proof fn lemma_quoted_prefix_facts(c: Seq<char>, p: Seq<char>)
    requires
        quoted_form(p).is_prefix_of(c),
    ensures
        c.len() >= p.len() + 2,
        c[0] == '"',
        c[p.len() as int + 1] == '"',
        c.subrange(1, p.len() as int + 1) == p,
{
    let q = quoted_form(p);
    assert(q.len() == p.len() + 2);
    assert(q =~= c.subrange(0, q.len() as int));
    assert(c.subrange(0, q.len() as int)[0] == c[0]);
    assert(c.subrange(0, q.len() as int)[p.len() as int + 1] == c[p.len() as int + 1]);
    assert(c.subrange(1, p.len() as int + 1) =~= p) by {
        assert forall|k: int| 0 <= k < p.len() implies c.subrange(1, p.len() as int + 1)[k] == p[k] by {
            assert(c.subrange(1, p.len() as int + 1)[k] == c[1 + k]);
            assert(c.subrange(0, q.len() as int)[1 + k] == c[1 + k]);
            assert(q[1 + k] == p[k]);
        }
    }
}

/// Those same characters of `c` make the quoted form of `p` a prefix of `c`.
proof fn lemma_quoted_conjuncts_prefix(c: Seq<char>, p: Seq<char>)
    requires
        c.len() >= p.len() + 2,
        c[0] == '"',
        c[p.len() as int + 1] == '"',
        c.subrange(1, p.len() as int + 1) == p,
    ensures
        quoted_form(p).is_prefix_of(c),
{
    let q = quoted_form(p);
    assert(q =~= c.subrange(0, q.len() as int)) by {
        assert forall|k: int| 0 <= k < q.len() implies q[k] == c.subrange(0, q.len() as int)[k] by {
            if k == 0 {
            } else if k <= p.len() {
                assert(q[k] == p[k - 1]);
                assert(c.subrange(1, p.len() as int + 1)[k - 1] == c[k]);
            } else {
                assert(k == p.len() + 1);
            }
        }
    }
}

/// The path-plus-space form being a prefix of `c` pins these characters of `c`.
proof fn lemma_plain_prefix_facts(c: Seq<char>, p: Seq<char>)
    requires
        (p + seq![' ']).is_prefix_of(c),
    ensures
        c.len() >= p.len() + 1,
        c.subrange(0, p.len() as int) == p,
        c[p.len() as int] == ' ',
{
    let q = p + seq![' '];
    assert(q =~= c.subrange(0, q.len() as int));
    assert(c.subrange(0, q.len() as int)[p.len() as int] == c[p.len() as int]);
    assert(c.subrange(0, p.len() as int) =~= p) by {
        assert forall|k: int| 0 <= k < p.len() implies c.subrange(0, p.len() as int)[k] == p[k] by {
            assert(c.subrange(0, q.len() as int)[k] == c[k]);
            assert(c.subrange(0, p.len() as int)[k] == c[k]);
            assert(q[k] == p[k]);
        }
    }
}

/// Those same characters of `c` make the path-plus-space form a prefix of `c`.
proof fn lemma_plain_conjuncts_prefix(c: Seq<char>, p: Seq<char>)
    requires
        c.len() >= p.len() + 1,
        c.subrange(0, p.len() as int) == p,
        c[p.len() as int] == ' ',
    ensures
        (p + seq![' ']).is_prefix_of(c),
{
    let q = p + seq![' '];
    assert(q =~= c.subrange(0, q.len() as int)) by {
        assert forall|k: int| 0 <= k < q.len() implies q[k] == c.subrange(0, q.len() as int)[k] by {
            if k < p.len() {
                assert(q[k] == p[k]);
                assert(c.subrange(0, p.len() as int)[k] == c[k]);
            } else {
                assert(k == p.len());
            }
            assert(c.subrange(0, q.len() as int)[k] == c[k]);
        }
    }
}

/// Cleans one command line `c` against the executable path `p`.
fn clean_cmd(c: &str, p: &str) -> (r: String)
    ensures
        r@ == spec_clean_cmd(c@, p@),
{
    let n = c.unicode_len();
    let m = p.unicode_len();
    if n >= 2 && m <= n - 2 && c.get_char(0) == '"' && c.get_char(m + 1) == '"' && matches_at(
        c,
        p,
        1,
    ) {
        proof {
            lemma_quoted_conjuncts_prefix(c@, p@);
        }
        let start = if n - m >= 3 {
            m + 3
        } else {
            n
        };
        let rest = c.substring_char(start, n);
        proof {
            if p@.len() + 3 <= c@.len() {
                assert(rest@ =~= c@.skip(p@.len() as int + 3));
            } else {
                assert(rest@ =~= Seq::<char>::empty());
            }
        }
        rest.to_owned()
    } else {
        proof {
            if quoted_form(p@).is_prefix_of(c@) {
                lemma_quoted_prefix_facts(c@, p@);
                assert(false);
            }
        }
        if m <= n && matches_at(c, p, 0) {
            if m < n && c.get_char(m) == ' ' {
                proof {
                    lemma_plain_conjuncts_prefix(c@, p@);
                }
                let rest = c.substring_char(m + 1, n);
                proof {
                    assert(rest@ =~= c@.skip(p@.len() as int + 1));
                }
                rest.to_owned()
            } else if m == n {
                proof {
                    assert(c@.subrange(0, c@.len() as int) =~= c@);
                    assert(c@ == p@);
                }
                String::new()
            } else {
                proof {
                    if (p@ + seq![' ']).is_prefix_of(c@) {
                        lemma_plain_prefix_facts(c@, p@);
                        assert(false);
                    }
                    assert(c@ != p@);
                }
                c.to_owned()
            }
        } else {
            proof {
                if (p@ + seq![' ']).is_prefix_of(c@) {
                    lemma_plain_prefix_facts(c@, p@);
                    assert(false);
                }
                if c@ == p@ {
                    assert(c@.subrange(0, c@.len() as int) =~= c@);
                    assert(false);
                }
            }
            c.to_owned()
        }
    }
}

impl Process {
    /// Removes the redundant executable-path prefix from the command line, as
    /// `spec_clean` describes; when either field is absent the record stays
    /// unchanged. Invoke exactly once per record: the operation is meant for
    /// the raw command line as the instrumentation reported it.
    pub fn clean(&mut self)
        ensures
            final(self)@ == spec_clean(old(self)@),
    {
        let cleaned: Option<String> = match (&self.command_line, &self.executable_path) {
            (Some(c), Some(p)) => Some(clean_cmd(c.as_str(), p.as_str())),
            _ => None,
        };
        match cleaned {
            Some(s) => {
                self.command_line = Some(s);
            },
            None => {
            },
        }
    }
}

/// Every character of `p` equals its predecessor, and the first is a double
/// quote, so every character up to `i` is a double quote.
proof fn lemma_const_chain(p: Seq<char>, i: int)
    requires
        p.len() > 0,
        p[0] == '"',
        forall|j: int| 0 <= j < p.len() - 1 ==> #[trigger] p[j + 1] == p[j],
        0 <= i < p.len(),
    ensures
        p[i] == '"',
    decreases i,
{
    if i > 0 {
        lemma_const_chain(p, i - 1);
        assert(p[(i - 1) + 1] == p[i - 1]);
    }
}

/// Cleaning law: a command line that is exactly the path, a separating space,
/// and the arguments is cleaned to exactly the arguments.
pub proof fn lemma_clean_strips_plain_prefix(p: Seq<char>, rest: Seq<char>)
    ensures
        spec_clean_cmd(p + seq![' '] + rest, p) == rest,
{
    let c = p + seq![' '] + rest;
    assert(c[p.len() as int] == ' ');
    if quoted_form(p).is_prefix_of(c) {
        lemma_quoted_prefix_facts(c, p);
        if p.len() == 0 {
            assert(c[0] == ' ');
            assert(false);
        } else {
            assert(p[0] == c[0]);
            assert(c[0] == '"');
            assert forall|j: int| 0 <= j < p.len() - 1 implies #[trigger] p[j + 1] == p[j] by {
                assert(c.subrange(1, p.len() as int + 1)[j] == c[j + 1]);
                assert(c[j + 1] == p[j + 1]);
            }
            assert(c.subrange(1, p.len() as int + 1)[p.len() - 1] == c[p.len() as int]);
            assert(p[p.len() - 1] == ' ');
            lemma_const_chain(p, p.len() - 1);
            assert(false);
        }
    }
    assert(c.subrange(0, p.len() as int) =~= p);
    lemma_plain_conjuncts_prefix(c, p);
    assert(c.skip(p.len() as int + 1) =~= rest);
}

/// Cleaning law: a command line that is the quoted path, a separating space,
/// and the arguments is cleaned to exactly the arguments.
pub proof fn lemma_clean_strips_quoted_prefix(p: Seq<char>, rest: Seq<char>)
    ensures
        spec_clean_cmd(seq!['"'] + p + seq!['"'] + seq![' '] + rest, p) == rest,
{
    let c = seq!['"'] + p + seq!['"'] + seq![' '] + rest;
    assert(quoted_form(p) =~= c.subrange(0, p.len() as int + 2));
    assert(quoted_form(p).is_prefix_of(c));
    assert(c.skip(p.len() as int + 3) =~= rest);
}

/// Cleaning law: a command line that starts neither with the path nor with
/// the quoted path is left unchanged, whatever it holds.
pub proof fn lemma_clean_keeps_unrelated(c: Seq<char>, p: Seq<char>)
    requires
        !p.is_prefix_of(c),
        !quoted_form(p).is_prefix_of(c),
    ensures
        spec_clean_cmd(c, p) == c,
{
    if (p + seq![' ']).is_prefix_of(c) {
        lemma_plain_prefix_facts(c, p);
        assert(p =~= c.subrange(0, p.len() as int));
        assert(false);
    }
    if c == p {
        assert(c.subrange(0, p.len() as int) =~= p);
        assert(p.is_prefix_of(c));
        assert(false);
    }
}

/// Absence law: when either the command line or the executable path is
/// absent, cleaning leaves the record unchanged.
pub proof fn lemma_clean_absent(r: ProcessView)
    requires
        r.command_line is None || r.executable_path is None,
    ensures
        spec_clean(r) == r,
{
}

} // verus!
