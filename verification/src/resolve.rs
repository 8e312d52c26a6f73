//! Path resolution with strict containment.
//!
//! A project identifier is an untrusted string naming a subdirectory of a
//! pre-canonicalized base directory. Resolution joins the two and must
//! guarantee that the result is a direct child of the base: any identifier
//! that could name a location outside the base (a separator anywhere in it,
//! a `.` or `..` component, and hence any absolute path or any path with a
//! parent-directory segment) is rejected as a path escape.

use vstd::prelude::*;
use vstd::string::StrSliceExecFns;
use vstd::string::StringExecFns;

verus! {

/// Error of the path resolver. A path escape is security relevant: the
/// identifier tried to name a location outside the base directory.
#[derive(Clone, Copy, Debug, PartialEq, Eq, Structural)]
pub enum PathError {
    PathEscape,
}

/// The single path component `.`, which names the directory itself.
pub open spec fn is_cur_dir(s: Seq<char>) -> bool {
    s.len() == 1 && s[0] == '.'
}

/// The single path component `..`, which names the parent directory.
pub open spec fn is_parent_dir(s: Seq<char>) -> bool {
    s.len() == 2 && s[0] == '.' && s[1] == '.'
}

/// A safe path component: non-empty, free of separators, and not a `.` or
/// `..` component. Joining such a component onto a directory always yields a
/// direct child of that directory.
pub open spec fn is_safe_component(s: Seq<char>) -> bool {
    &&& s.len() > 0
    &&& forall|i: int| 0 <= i < s.len() ==> s[i] != '/'
    &&& !is_cur_dir(s)
    &&& !is_parent_dir(s)
}

/// The identifier contains a parent-directory segment: a `..` component,
/// either the whole string or delimited by separators.
pub open spec fn has_parent_segment(s: Seq<char>) -> bool {
    exists|i: int|
        0 <= i && i + 2 <= s.len() && #[trigger] s[i] == '.' && s[i + 1] == '.' && (i == 0 || s[i
            - 1] == '/') && (i + 2 == s.len() || s[i + 2] == '/')
}

/// The identifier is itself an absolute path.
pub open spec fn is_absolute_path(s: Seq<char>) -> bool {
    s.len() > 0 && s[0] == '/'
}

/// The path obtained by joining `name` onto the directory `base`.
pub open spec fn joined(base: Seq<char>, name: Seq<char>) -> Seq<char> {
    base + "/"@ + name
}

/// Index of the last separator in `p`, or `-1` if `p` has none.
pub open spec fn last_sep(p: Seq<char>) -> int
    decreases p.len(),
{
    if p.len() == 0 {
        -1
    } else if p[p.len() - 1] == '/' {
        p.len() - 1
    } else {
        last_sep(p.drop_last())
    }
}

/// The syntactic parent of a path: everything before its last separator
/// (empty if it has none).
pub open spec fn parent_of(p: Seq<char>) -> Seq<char> {
    if last_sep(p) < 0 {
        Seq::empty()
    } else {
        p.subrange(0, last_sep(p))
    }
}

/// Resolve an untrusted project identifier against a canonicalized base
/// directory. Succeeds exactly on safe components; the result is then the
/// join of the two, whose parent is the base itself (`lemma_contained`).
/// Every other identifier is a path escape.
pub fn resolve(base: &str, ident: &str) -> (r: Result<String, PathError>)
    ensures
        r is Ok <==> is_safe_component(ident@),
        r matches Ok(p) ==> p@ == joined(base@, ident@),
        r matches Err(e) ==> e == PathError::PathEscape,
{
    let n = ident.unicode_len();
    if n == 0 {
        return Err(PathError::PathEscape);
    }
    let mut i: usize = 0;
    let mut dots_only: bool = true;
    while i < n
        invariant
            n == ident@.len(),
            0 <= i <= n,
            forall|j: int| 0 <= j < i ==> ident@[j] != '/',
            dots_only <==> (forall|j: int| 0 <= j < i ==> ident@[j] == '.'),
        decreases n - i,
    {
        let c = ident.get_char(i);
        if c == '/' {
            return Err(PathError::PathEscape);
        }
        if c != '.' {
            dots_only = false;
        }
        i = i + 1;
    }
    if dots_only && n <= 2 {
        return Err(PathError::PathEscape);
    }
    let mut out = base.to_owned();
    out.append("/");
    out.append(ident);
    Ok(out)
}

/// Any identifier with a parent-directory segment, and any absolute
/// identifier, is refused as unsafe: the resolver maps it to a path escape.
pub proof fn lemma_escape_refused(s: Seq<char>)
    requires
        has_parent_segment(s) || is_absolute_path(s),
    ensures
        !is_safe_component(s),
{
    if is_absolute_path(s) {
        assert(s[0] == '/');
    } else {
        let i = choose|i: int|
            0 <= i && i + 2 <= s.len() && #[trigger] s[i] == '.' && s[i + 1] == '.' && (i == 0 || s[
                i - 1] == '/') && (i + 2 == s.len() || s[i + 2] == '/');
        if i > 0 {
            assert(s[i - 1] == '/');
        } else if i + 2 < s.len() {
            assert(s[i + 2] == '/');
        } else {
            assert(is_parent_dir(s));
        }
    }
}

/// Appending separator-free text to a path does not move its last separator.
proof fn lemma_last_sep_append(p: Seq<char>, name: Seq<char>)
    requires
        forall|i: int| 0 <= i < name.len() ==> name[i] != '/',
    ensures
        last_sep(p + name) == last_sep(p),
    decreases name.len(),
{
    if name.len() == 0 {
        assert(p + name =~= p);
    } else {
        let q = p + name;
        assert(q[q.len() - 1] == name[name.len() - 1]);
        assert(q.drop_last() =~= p + name.drop_last());
        lemma_last_sep_append(p, name.drop_last());
    }
}

/// Containment guarantee: the join of a base directory and a safe component
/// is a direct child of the base — its syntactic parent is the base exactly.
pub proof fn lemma_contained(base: Seq<char>, name: Seq<char>)
    requires
        is_safe_component(name),
    ensures
        parent_of(joined(base, name)) == base,
{
    reveal_strlit("/");
    let sep = "/"@;
    let stem = base + sep;
    assert(stem[stem.len() - 1] == '/');
    assert(last_sep(stem) == base.len());
    lemma_last_sep_append(stem, name);
    assert(last_sep(joined(base, name)) == base.len());
    assert(parent_of(joined(base, name)) =~= base);
}

} // verus!
