//! Slash-separated path arithmetic over character sequences.
//!
//! The engine and the filesystem model agree on one path convention:
//! a full path is the project root, a slash, and the step's relative
//! name; the parent of a path is everything before its last slash.

use vstd::prelude::*;

verus! {

/// `root`, a slash, and `rel`.
pub open spec fn join_path(root: Seq<char>, rel: Seq<char>) -> Seq<char> {
    root + seq!['/'] + rel
}

/// The index of the last slash in `p`, or -1 when `p` has none.
pub open spec fn last_slash(p: Seq<char>) -> int
    decreases p.len(),
{
    if p.len() == 0 {
        -1
    } else if p[p.len() - 1] == '/' {
        p.len() - 1
    } else {
        last_slash(p.drop_last())
    }
}

/// Everything before the last slash of `p`; empty when `p` has no slash.
pub open spec fn parent_of(p: Seq<char>) -> Seq<char> {
    if last_slash(p) >= 0 {
        p.subrange(0, last_slash(p))
    } else {
        Seq::empty()
    }
}

/// A slash at `idx` with none after it is the last slash.
proof fn lemma_last_slash_at(p: Seq<char>, idx: int)
    requires
        0 <= idx < p.len(),
        p[idx] == '/',
        forall|k: int| idx < k < p.len() ==> p[k] != '/',
    ensures
        last_slash(p) == idx,
    decreases p.len(),
{
    if idx == p.len() - 1 {
    } else {
        lemma_last_slash_at(p.drop_last(), idx);
    }
}

/// A path without any slash has no last slash.
proof fn lemma_no_slash(p: Seq<char>)
    requires
        forall|k: int| 0 <= k < p.len() ==> p[k] != '/',
    ensures
        last_slash(p) == -1,
    decreases p.len(),
{
    if p.len() > 0 {
        lemma_no_slash(p.drop_last());
    }
}

/// Two relative names that give the same path under one root are the
/// same name.
pub proof fn lemma_join_path_injective(root: Seq<char>, a: Seq<char>, b: Seq<char>)
    requires
        join_path(root, a) == join_path(root, b),
    ensures
        a == b,
{
    let ja = join_path(root, a);
    let jb = join_path(root, b);
    assert(ja.len() == root.len() + 1 + a.len());
    assert(jb.len() == root.len() + 1 + b.len());
    assert forall|i: int| 0 <= i < a.len() implies a[i] == b[i] by {
        assert(ja[root.len() + 1 + i] == a[i]);
        assert(jb[root.len() + 1 + i] == b[i]);
    }
    assert(a =~= b);
}

/// Join a project root and a relative name into a full path.
pub fn join(root: &str, rel: &str) -> (r: String)
    ensures
        r@ == join_path(root@, rel@),
{
    let mut s = root.to_owned();
    s.append("/");
    s.append(rel);
    proof {
        reveal_strlit("/");
        assert(s@ =~= join_path(root@, rel@));
    }
    s
}

/// The parent directory of a full path: everything before its last
/// slash, or the empty string when the path has no slash.
pub fn parent_dir(p: &str) -> (r: String)
    ensures
        r@ == parent_of(p@),
{
    let n = p.unicode_len();
    let mut i: usize = 0;
    let mut last: usize = 0;
    let mut seen: bool = false;
    while i < n
        invariant
            0 <= i <= n,
            n == p@.len(),
            seen ==> last < i && p@[last as int] == '/',
            seen ==> forall|k: int| last < k < i ==> p@[k] != '/',
            !seen ==> forall|k: int| 0 <= k < i ==> p@[k] != '/',
        decreases n - i,
    {
        if p.get_char(i) == '/' {
            last = i;
            seen = true;
        }
        i = i + 1;
    }
    if seen {
        proof {
            lemma_last_slash_at(p@, last as int);
        }
        let pre = p.substring_char(0, last);
        pre.to_owned()
    } else {
        proof {
            lemma_no_slash(p@);
        }
        let r = String::new();
        assert(r@ =~= parent_of(p@));
        r
    }
}

} // verus!
