//! Paths on this device, as the text they are spelled in.
//!
//! A path here is a `String`, joined the way `PathBuf::push` joins a relative
//! part onto a Unix path: with one `/` between them unless the base is empty
//! or already ends in one, and an absolute part standing for itself.
use vstd::prelude::*;
use crate::text::{cat, chars_of, owned};

verus! {

/// `part` joined below `base`.
pub open spec fn spec_join(base: Seq<char>, part: Seq<char>) -> Seq<char> {
    if part.len() > 0 && part[0] == '/' {
        part
    } else if base.len() == 0 || base.last() == '/' {
        base + part
    } else {
        base + seq!['/'] + part
    }
}

/// `part` joined below `base`.
pub fn join(base: &str, part: &str) -> (joined: String)
    ensures
        joined@ == spec_join(base@, part@),
{
    let b = chars_of(base);
    let p = chars_of(part);
    if p.len() > 0 && p[0] == '/' {
        owned(part)
    } else if b.len() == 0 || b[b.len() - 1] == '/' {
        cat(owned(base), part)
    } else {
        let with_separator = cat(owned(base), "/");
        proof {
            assert("/"@ =~= seq!['/']) by {
                reveal_strlit("/");
            }
        }
        cat(with_separator, part)
    }
}

/// What is left of `path` below `root`, where `path` is `root` or lies inside
/// it; `path` itself otherwise.
///
/// Component by component for the normalized paths this crate composes: the
/// separators between `root` and what is below it are dropped.
pub open spec fn spec_below(root: Seq<char>, path: Seq<char>) -> Seq<char> {
    if root.len() <= path.len() && path.subrange(0, root.len() as int) =~= root {
        let rest = path.subrange(root.len() as int, path.len() as int);
        if rest.len() == 0 {
            rest
        } else if rest[0] == '/' {
            rest.subrange(1, rest.len() as int)
        } else if root.len() > 0 && root.last() == '/' {
            rest
        } else {
            path
        }
    } else {
        path
    }
}

/// What is left of `path` below `root`, as `Path::strip_prefix` leaves it, or
/// `path` itself where it is not below `root`.
pub fn below(root: &str, path: &str) -> (rest: String)
    ensures
        rest@ == spec_below(root@, path@),
{
    let r = chars_of(root);
    let p = chars_of(path);
    let rn = r.len();
    let pn = p.len();
    if rn > pn {
        return owned(path);
    }
    let mut i: usize = 0;
    while i < rn
        invariant
            rn == r@.len(),
            pn == p@.len(),
            r@ == root@,
            p@ == path@,
            rn <= pn,
            i <= rn,
            forall|j: int| 0 <= j < i ==> r@[j] == p@[j],
        decreases rn - i,
    {
        if r[i] != p[i] {
            assert(!(path@.subrange(0, rn as int) =~= root@)) by {
                assert(path@.subrange(0, rn as int)[i as int] == p@[i as int]);
            }
            return owned(path);
        }
        i = i + 1;
    }
    assert(path@.subrange(0, rn as int) =~= root@);
    let ghost rest = path@.subrange(rn as int, pn as int);
    if rn == pn {
        assert(rest.len() == 0);
        return String::new();
    }
    assert(rest[0] == p@[rn as int]);
    let start: usize = if p[rn] == '/' {
        rn + 1
    } else if rn > 0 && r[rn - 1] == '/' {
        rn
    } else {
        return owned(path);
    };
    let mut out = String::new();
    let mut k: usize = start;
    while k < pn
        invariant
            pn == p@.len(),
            p@ == path@,
            start <= k <= pn,
            out@ =~= path@.subrange(start as int, k as int),
        decreases pn - k,
    {
        crate::text::push_char(&mut out, p[k]);
        k = k + 1;
    }
    if p[rn] == '/' {
        assert(out@ =~= rest.subrange(1, rest.len() as int));
    } else {
        assert(out@ =~= rest);
    }
    out
}

} // verus!
