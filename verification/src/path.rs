//! The last component of a `/`-separated path, as `Path::file_name` finds it.

use vstd::prelude::*;

use crate::text::{chars_of, string_from_chars};

verus! {

/// The path with trailing separators and trailing `.` components removed.
pub open spec fn trim_tail(p: Seq<char>) -> Seq<char>
    decreases p.len(),
{
    if p.len() > 0 && p.last() == '/' {
        trim_tail(p.drop_last())
    } else if p.len() >= 2 && p.last() == '.' && p[p.len() - 2] == '/' {
        trim_tail(p.drop_last())
    } else {
        p
    }
}

/// Where the last component of `t[..n]` starts: just after the last `/`.
pub open spec fn segment_start(t: Seq<char>, n: int) -> int
    decreases n,
{
    if n <= 0 {
        0
    } else if t[n - 1] == '/' {
        n
    } else {
        segment_start(t, n - 1)
    }
}

/// The last component of a path: `None` for a path that ends in the root,
/// in `.` or in `..`.
pub open spec fn path_file_name(p: Seq<char>) -> Option<Seq<char>> {
    let t = trim_tail(p);
    let s = t.subrange(segment_start(t, t.len() as int), t.len() as int);
    if s.len() == 0 || s == seq!['.'] || s == seq!['.', '.'] {
        None
    } else {
        Some(s)
    }
}

proof fn lemma_segment_start_bounds(t: Seq<char>, n: int)
    requires
        0 <= n <= t.len(),
    ensures
        0 <= segment_start(t, n) <= n,
        forall|i: int| segment_start(t, n) <= i < n ==> t[i] != '/',
    decreases n,
{
    if n > 0 && t[n - 1] != '/' {
        lemma_segment_start_bounds(t, n - 1);
    }
}

proof fn lemma_segment_start_without_separator(t: Seq<char>, n: int)
    requires
        0 <= n <= t.len(),
        forall|i: int| 0 <= i < n ==> t[i] != '/',
    ensures
        segment_start(t, n) == 0,
    decreases n,
{
    if n > 0 {
        lemma_segment_start_without_separator(t, n - 1);
    }
}

/// The last component of a path is a bare file name: its own last
/// component.
pub proof fn lemma_file_name_is_bare(p: Seq<char>)
    requires
        path_file_name(p) is Some,
    ensures
        path_file_name(path_file_name(p)->0) == path_file_name(p),
{
    let t = trim_tail(p);
    lemma_segment_start_bounds(t, t.len() as int);
    let st = segment_start(t, t.len() as int);
    let s = t.subrange(st, t.len() as int);
    assert(forall|i: int| 0 <= i < s.len() ==> s[i] == t[st + i]);
    assert(forall|i: int| 0 <= i < s.len() ==> s[i] != '/');
    assert(trim_tail(s) == s) by {
        assert(s[s.len() - 1] != '/');
        if s.len() >= 2 {
            assert(s[s.len() - 2] != '/');
        }
    }
    lemma_segment_start_without_separator(s, s.len() as int);
    assert(s.subrange(0, s.len() as int) == s);
}

proof fn lemma_segment_start_after_separator(t: Seq<char>, m: int, n: int)
    requires
        0 < m <= n <= t.len(),
        t[m - 1] == '/',
        forall|i: int| m <= i < n ==> t[i] != '/',
    ensures
        segment_start(t, n) == m,
    decreases n,
{
    if n > m {
        lemma_segment_start_after_separator(t, m, n - 1);
    }
}

/// A name without separators that is not empty, `.` or `..` is its own
/// file name; it is also the file name of any path that ends in it after a
/// `/`, with or without a trailing `/`.
pub proof fn lemma_file_name_of_joined(dir: Seq<char>, name: Seq<char>)
    requires
        name.len() > 0,
        name != seq!['.'],
        name != seq!['.', '.'],
        forall|i: int| 0 <= i < name.len() ==> name[i] != '/',
    ensures
        path_file_name(name) == Some(name),
        path_file_name(dir + seq!['/'] + name) == Some(name),
        path_file_name(dir + seq!['/'] + name + seq!['/']) == Some(name),
{
    assert(trim_tail(name) == name) by {
        if name.len() >= 2 {
            assert(name[name.len() - 2] != '/');
        }
    }
    lemma_segment_start_without_separator(name, name.len() as int);
    assert(name.subrange(0, name.len() as int) == name);
    let p = dir + seq!['/'] + name;
    let m: int = dir.len() + 1int;
    assert(p.len() == m + name.len());
    assert(forall|i: int| 0 <= i < name.len() ==> p[m + i] == name[i]);
    assert(trim_tail(p) == p) by {
        assert(p.last() == name.last());
        if name.len() >= 2 {
            assert(p[p.len() - 2] == name[name.len() - 2]);
        } else {
            assert(name =~= seq![name[0]]);
        }
    }
    assert(p[m - 1] == '/');
    assert forall|i: int| m <= i < p.len() implies p[i] != '/' by {
        assert(p[i] == name[i - m]);
    }
    lemma_segment_start_after_separator(p, m, p.len() as int);
    assert(p.subrange(m, p.len() as int) =~= name);
    let q = p + seq!['/'];
    assert(q.drop_last() == p);
    assert(trim_tail(q) == trim_tail(p));
}

/// The last component of `path`, as `Path::new(path).file_name()` gives it.
pub fn file_name(path: &str) -> (r: Option<String>)
    ensures
        r is Some <==> path_file_name(path@) is Some,
        r matches Some(s) ==> path_file_name(path@) == Some(s@),
{
    let p = chars_of(path);
    let mut n: usize = p.len();
    assert(p@.subrange(0, n as int) == p@);
    while n > 0 && (p[n - 1] == '/' || (n >= 2 && p[n - 1] == '.' && p[n - 2] == '/'))
        invariant
            n <= p@.len(),
            p@.len() == p.len(),
            trim_tail(p@) == trim_tail(p@.subrange(0, n as int)),
        decreases n,
    {
        assert(p@.subrange(0, n as int).drop_last() == p@.subrange(0, n - 1));
        n = n - 1;
    }
    let ghost t = p@.subrange(0, n as int);
    assert(trim_tail(t) == t);
    let mut k: usize = n;
    while k > 0 && p[k - 1] != '/'
        invariant
            k <= n <= p@.len(),
            p@.len() == p.len(),
            t == p@.subrange(0, n as int),
            segment_start(t, n as int) == segment_start(t, k as int),
        decreases k,
    {
        k = k - 1;
    }
    proof {
        lemma_segment_start_bounds(t, n as int);
    }
    assert(segment_start(t, n as int) == k);
    let len = n - k;
    if len == 0 {
        return None;
    }
    let mut seg: Vec<char> = Vec::new();
    let mut i: usize = k;
    while i < n
        invariant
            k <= i <= n <= p@.len(),
            seg@ == p@.subrange(k as int, i as int),
        decreases n - i,
    {
        seg.push(p[i]);
        i = i + 1;
        assert(seg@ == p@.subrange(k as int, i as int));
    }
    assert(seg@ == t.subrange(k as int, n as int));
    if len == 1 && seg[0] == '.' {
        assert(seg@ == seq!['.']);
        return None;
    }
    if len == 2 && seg[0] == '.' && seg[1] == '.' {
        assert(seg@ == seq!['.', '.']);
        return None;
    }
    assert(seg@ != seq!['.']);
    assert(seg@ != seq!['.', '.']);
    Some(string_from_chars(seg.as_slice()))
}

/// Whether `name` is a bare file name: a path whose last component is the
/// whole of it (no separator, not empty, not `.` or `..`).
pub fn is_bare_file_name(name: &str) -> (r: bool)
    ensures
        r == (path_file_name(name@) == Some(name@)),
{
    match file_name(name) {
        Some(s) => crate::text::same_text(s.as_str(), name),
        None => false,
    }
}

/// The parent of a path, as `Path::parent` gives it.
pub uninterp spec fn std_path_parent(path: Seq<char>) -> Option<Seq<char>>;

/// The parent of `path`.
///
/// Calls `Path::parent`; claims only that the result is the named parent of
/// the path, which depends on the path alone.
#[verifier::external_body]
pub(crate) fn parent_of(path: &str) -> (r: Option<String>)
    ensures
        match std_path_parent(path@) {
            Some(p) => r matches Some(s) && s@ == p,
            None => r is None,
        },
{
    match std::path::Path::new(path).parent() {
        Some(p) => Some(p.to_string_lossy().into_owned()),
        None => None,
    }
}

/// Whether two paths are equal as `Path`s are compared: component by
/// component.
pub uninterp spec fn std_paths_equal(a: Seq<char>, b: Seq<char>) -> bool;

/// Whether `a` and `b` name the same path, component by component.
///
/// Calls `PartialEq::eq` on two `Path`s; claims that the result is the named
/// comparison of the two strings and that a string equals itself.
#[verifier::external_body]
pub(crate) fn same_path(a: &str, b: &str) -> (r: bool)
    ensures
        r == std_paths_equal(a@, b@),
        a@ == b@ ==> r,
{
    std::path::Path::new(a) == std::path::Path::new(b)
}

/// `base` joined with a relative `name`, as `Path::join` does it: a `/` is
/// put between them unless `base` is empty or already ends with one.
pub open spec fn joined(base: Seq<char>, name: Seq<char>) -> Seq<char> {
    if base.len() == 0 || base.last() == '/' {
        base + name
    } else {
        base + seq!['/'] + name
    }
}

/// Joins a relative `name` onto `base`.
pub fn join_name(base: &str, name: &str) -> (r: String)
    ensures
        r@ == joined(base@, name@),
{
    let b = chars_of(base);
    let n = chars_of(name);
    let mut out: Vec<char> = Vec::new();
    let mut i: usize = 0;
    while i < b.len()
        invariant
            i <= b@.len(),
            out@ == b@.take(i as int),
        decreases b@.len() - i,
    {
        out.push(b[i]);
        i = i + 1;
        assert(out@ == b@.take(i as int));
    }
    assert(b@.take(b@.len() as int) == b@);
    if b.len() > 0 && b[b.len() - 1] != '/' {
        out.push('/');
    }
    let ghost head = out@;
    let mut j: usize = 0;
    while j < n.len()
        invariant
            j <= n@.len(),
            out@ == head + n@.take(j as int),
        decreases n@.len() - j,
    {
        out.push(n[j]);
        j = j + 1;
        assert(out@ == head + n@.take(j as int));
    }
    assert(n@.take(n@.len() as int) == n@);
    string_from_chars(out.as_slice())
}

} // verus!
