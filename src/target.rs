use vstd::prelude::*;

verus! {

/// The path with one trailing `/` removed, if it ends with one.
pub open spec fn strip_trailing_slash(p: Seq<char>) -> Seq<char> {
    if p.len() > 0 && p.last() == '/' {
        p.drop_last()
    } else {
        p
    }
}

/// `dir`, a separator, then `name`.
pub open spec fn joined(dir: Seq<char>, name: Seq<char>) -> Seq<char> {
    dir + seq!['/'] + name
}

/// Where a request path lands: the root, a separator, then the path
/// without its trailing `/`. A plain concatenation, not a filesystem join.
pub open spec fn resolved(root: Seq<char>, p: Seq<char>) -> Seq<char> {
    joined(root, strip_trailing_slash(p))
}

/// A `..` segment starts at `i`: two dots, bounded on each side by a `/`
/// or by an end of the path.
pub open spec fn parent_segment_at(p: Seq<char>, i: int) -> bool {
    &&& 0 <= i
    &&& i + 2 <= p.len()
    &&& p[i] == '.'
    &&& p[i + 1] == '.'
    &&& (i == 0 || p[i - 1] == '/')
    &&& (i + 2 == p.len() || p[i + 2] == '/')
}

/// The path names a parent directory somewhere, and so may leave the root.
pub open spec fn has_parent_segment(p: Seq<char>) -> bool {
    exists|i: int| parent_segment_at(p, i)
}

/// The path with one trailing `/` removed, if it ends with one.
pub fn trim_trailing_slash(p: &str) -> (r: &str)
    ensures
        r@ == strip_trailing_slash(p@),
{
    let n = p.unicode_len();
    if n > 0 && p.get_char(n - 1) == '/' {
        let r = p.substring_char(0, n - 1);
        assert(r@ =~= p@.drop_last());
        r
    } else {
        p
    }
}

/// `dir`, a `/`, then `name`.
pub fn join(dir: &str, name: &str) -> (r: String)
    ensures
        r@ == joined(dir@, name@),
{
    let mut s = String::from_str(dir);
    s.append("/");
    s.append(name);
    proof {
        reveal_strlit("/");
        assert(s@ =~= joined(dir@, name@));
    }
    s
}

/// The filesystem path that a request path stands for under `root`.
pub fn resolve(root: &str, p: &str) -> (r: String)
    ensures
        r@ == resolved(root@, p@),
{
    join(root, trim_trailing_slash(p))
}

/// Whether the path holds a `..` segment.
pub fn names_parent(p: &str) -> (r: bool)
    ensures
        r == has_parent_segment(p@),
{
    let n = p.unicode_len();
    let mut i: usize = 0;
    while n >= 2 && i <= n - 2
        invariant
            n == p@.len(),
            i <= n,
            forall|j: int| 0 <= j < i ==> !parent_segment_at(p@, j),
        decreases n - i,
    {
        if p.get_char(i) == '.' && p.get_char(i + 1) == '.' && (i == 0 || p.get_char(i - 1)
            == '/') && (i + 2 == n || p.get_char(i + 2) == '/') {
            assert(parent_segment_at(p@, i as int));
            return true;
        }
        i = i + 1;
    }
    assert forall|j: int| !parent_segment_at(p@, j) by {
        if 0 <= j < i {
        } else if parent_segment_at(p@, j) {
            assert(j + 2 <= n);
        }
    }
    false
}

/// Trailing `/` does not change where a path lands: `p` and `p` with one
/// `/` appended resolve to the same filesystem path. A path that already
/// ends with `/` is left out, as only one trailing `/` is removed.
pub proof fn lemma_trailing_slash_resolves_alike(root: Seq<char>, p: Seq<char>)
    requires
        p.len() == 0 || p.last() != '/',
    ensures
        resolved(root, p) == resolved(root, p.push('/')),
{
    assert(p.push('/').drop_last() =~= p);
}

/// Appending one `/` to a path that does not end with one neither makes nor
/// breaks a `..` segment.
pub proof fn lemma_trailing_slash_keeps_parent_segments(p: Seq<char>)
    requires
        p.len() == 0 || p.last() != '/',
    ensures
        has_parent_segment(p) == has_parent_segment(p.push('/')),
{
    let q = p.push('/');
    if has_parent_segment(p) {
        let i = choose|i: int| parent_segment_at(p, i);
        assert(parent_segment_at(q, i));
    }
    if has_parent_segment(q) {
        let i = choose|i: int| parent_segment_at(q, i);
        assert(q[p.len() as int] == '/');
        assert(i + 2 <= p.len());
        assert(parent_segment_at(p, i));
    }
}

} // verus!
