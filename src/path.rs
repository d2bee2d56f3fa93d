use vstd::prelude::*;
use vstd::string::StringExecFns;

use crate::error::{Error, IoErrorKind, Result};

verus! {

/// The path separator.
pub const SEPARATOR: char = '/';

/// `s` with every leading separator removed: a path stored as absolute is
/// read relative to the destination root.
pub open spec fn strip_root(s: Seq<char>) -> Seq<char>
    decreases s.len(),
{
    if s.len() > 0 && s[0] == SEPARATOR {
        strip_root(s.drop_first())
    } else {
        s
    }
}

/// True when a `..` component (a parent-directory traversal) starts at
/// position `i` of `s`.
pub open spec fn is_parent_component_at(s: Seq<char>, i: int) -> bool {
    &&& 0 <= i
    &&& i + 2 <= s.len()
    &&& s[i] == '.'
    &&& s[i + 1] == '.'
    &&& i == 0 || s[i - 1] == SEPARATOR
    &&& i + 2 == s.len() || s[i + 2] == SEPARATOR
}

/// True when some component of the path `s` is `..`.
pub open spec fn has_parent_component(s: Seq<char>) -> bool {
    exists|i: int| is_parent_component_at(s, i)
}

/// The path `rel` placed under the directory `dest`: a separator is put
/// between them unless `dest` is empty or already ends with one.
pub open spec fn joined(dest: Seq<char>, rel: Seq<char>) -> Seq<char> {
    if dest.len() == 0 || dest.last() == SEPARATOR {
        dest + rel
    } else {
        dest + seq![SEPARATOR] + rel
    }
}

/// Removing leading separators from a path that begins with separators
/// only in its first `k` positions is removing them from what follows.
proof fn lemma_strip_root_skip(s: Seq<char>, k: int)
    requires
        0 <= k <= s.len(),
        forall|j: int| 0 <= j < k ==> s[j] == SEPARATOR,
    ensures
        strip_root(s) == strip_root(s.skip(k)),
    decreases k,
{
    if k == 0 {
        assert(s.skip(0) =~= s);
    } else {
        lemma_strip_root_skip(s.drop_first(), k - 1);
        assert(s.drop_first().skip(k - 1) =~= s.skip(k));
    }
}

/// The characters of a string, in order.
fn chars_of(s: &str) -> (r: Vec<char>)
    ensures
        r@ == s@,
{
    let mut out: Vec<char> = Vec::new();
    for c in it: s.chars()
        invariant
            it.seq() == s@,
            out@ == s@.subrange(0, it.index() as int),
    {
        out.push(c);
    }
    proof {
        assert(out@ =~= s@);
    }
    out
}

/// Whether some component of the path is `..`.
pub fn contains_parent_component(path: &Vec<char>) -> (r: bool)
    ensures
        r == has_parent_component(path@),
{
    let n = path.len();
    let mut i: usize = 0;
    while n >= 2 && i <= n - 2
        invariant
            n == path@.len(),
            i <= n,
            forall|j: int| 0 <= j < i ==> !is_parent_component_at(path@, j),
        decreases n - i,
    {
        if path[i] == '.' && path[i + 1] == '.' && (i == 0 || path[i - 1] == SEPARATOR) && (i + 2
            == n || path[i + 2] == SEPARATOR) {
            assert(is_parent_component_at(path@, i as int));
            return true;
        }
        i = i + 1;
    }
    false
}

/// Validate the path of an archive entry before anything is written for it.
/// Leading separators are stripped, so that an absolute path lands under the
/// destination root; a path with a `..` component is refused with an
/// `InvalidData` error, since it could escape that root.
pub fn sanitize_destination_path(dest: &str) -> (r: Result<String>)
    ensures
        r is Ok <==> !has_parent_component(strip_root(dest@)),
        r is Ok ==> r->Ok_0@ == strip_root(dest@),
        r is Err ==> r->Err_0 == Error::Io(IoErrorKind::InvalidData),
{
    let chars = chars_of(dest);
    let n = chars.len();
    let mut k: usize = 0;
    while k < n && chars[k] == SEPARATOR
        invariant
            chars@ == dest@,
            n == chars@.len(),
            k <= n,
            forall|j: int| 0 <= j < k ==> chars@[j] == SEPARATOR,
        decreases n - k,
    {
        k = k + 1;
    }
    proof {
        lemma_strip_root_skip(dest@, k as int);
        assert(strip_root(dest@.skip(k as int)) == dest@.skip(k as int));
    }
    let rest = dest.substring_char(k, n);
    assert(rest@ =~= dest@.skip(k as int));
    let rest_chars = chars_of(rest);
    if contains_parent_component(&rest_chars) {
        Err(Error::Io(IoErrorKind::InvalidData))
    } else {
        Ok(rest.to_owned())
    }
}

/// The path `rel` placed under the directory `dest`.
pub fn join_path(dest: &str, rel: &str) -> (r: String)
    ensures
        r@ == joined(dest@, rel@),
{
    let n = dest.unicode_len();
    let mut out = dest.to_owned();
    if n > 0 && dest.get_char(n - 1) != SEPARATOR {
        let sep = "/";
        proof {
            reveal_strlit("/");
        }
        out.append(sep);
    }
    out.append(rel);
    proof {
        if !(n == 0 || dest@.last() == SEPARATOR) {
            assert(out@ =~= dest@ + seq![SEPARATOR] + rel@);
        }
    }
    out
}

/// Where an entry named `name` is written under the destination root
/// `dest`: the sanitized name placed under the root, or the `InvalidData`
/// error of a name with a `..` component.
pub fn entry_destination(dest: &str, name: &str) -> (r: Result<String>)
    ensures
        r is Ok <==> !has_parent_component(strip_root(name@)),
        r is Ok ==> r->Ok_0@ == joined(dest@, strip_root(name@)),
        r is Err ==> r->Err_0 == Error::Io(IoErrorKind::InvalidData),
{
    match sanitize_destination_path(name) {
        Ok(rel) => Ok(join_path(dest, rel.as_str())),
        Err(e) => Err(e),
    }
}

/// Stripping the root twice is stripping it once, and what is left never
/// begins with a separator.
pub proof fn lemma_strip_root_idempotent(s: Seq<char>)
    ensures
        strip_root(strip_root(s)) == strip_root(s),
        strip_root(s).len() == 0 || strip_root(s)[0] != SEPARATOR,
    decreases s.len(),
{
    if s.len() > 0 && s[0] == SEPARATOR {
        lemma_strip_root_idempotent(s.drop_first());
    }
}

/// Every entry that may be written lands under the destination root: its
/// path is the root, a separator where the root lacks one, and then a
/// relative path that neither begins with a separator nor holds a `..`
/// component. This holds of absolute names too, which are rewritten under
/// the root. The part after the root depends on the name alone, so two
/// extractions into different roots lay out the same tree.
pub proof fn lemma_destination_stays_under_root(dest: Seq<char>, name: Seq<char>)
    requires
        !has_parent_component(strip_root(name)),
    ensures
        joined(dest, strip_root(name)).subrange(0, dest.len() as int) == dest,
        dest.len() == 0 || dest.last() == SEPARATOR ==> joined(dest, strip_root(name)).skip(
            dest.len() as int,
        ) == strip_root(name),
        dest.len() > 0 && dest.last() != SEPARATOR ==> joined(dest, strip_root(name))[dest.len(
        ) as int] == SEPARATOR && joined(dest, strip_root(name)).skip(dest.len() as int + 1)
            == strip_root(name),
        strip_root(name).len() == 0 || strip_root(name)[0] != SEPARATOR,
        !has_parent_component(strip_root(name)),
{
    let rel = strip_root(name);
    lemma_strip_root_idempotent(name);
    let p = joined(dest, rel);
    if dest.len() == 0 || dest.last() == SEPARATOR {
        assert(p.subrange(0, dest.len() as int) =~= dest);
        assert(p.skip(dest.len() as int) =~= rel);
    } else {
        assert(p.subrange(0, dest.len() as int) =~= dest);
        assert(p.skip(dest.len() as int + 1) =~= rel);
    }
}

} // verus!
