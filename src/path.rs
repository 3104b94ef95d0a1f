//! Paths as byte strings: descendant tests and the last path segment.
use vstd::prelude::*;

verus! {

/// The separator between path segments.
pub const SEPARATOR: u8 = 0x2f;

/// `p` lies strictly below the directory `dir`: `dir` is a prefix of `p` that
/// ends at a segment boundary.
pub open spec fn is_descendant(dir: Seq<u8>, p: Seq<u8>) -> bool {
    &&& dir.len() < p.len()
    &&& p.subrange(0, dir.len() as int) == dir
    &&& (p[dir.len() as int] == SEPARATOR || (dir.len() > 0 && dir.last() == SEPARATOR))
}

/// `p[start..end]` is the last segment of `p`: the separators after it are
/// trailing ones, and it holds no separator.
pub open spec fn is_last_segment(p: Seq<u8>, start: int, end: int) -> bool {
    &&& 0 <= start <= end <= p.len()
    &&& (start == 0 || p[start - 1] == SEPARATOR)
    &&& (end == 0 || p[end - 1] != SEPARATOR)
    &&& forall|k: int| start <= k < end ==> p[k] != SEPARATOR
    &&& forall|k: int| end <= k < p.len() ==> p[k] == SEPARATOR
}

/// The name shown for a path: its last segment, or the whole path where that
/// segment is empty (the path is empty or all separators).
pub open spec fn display_name(p: Seq<u8>, start: int, end: int) -> Seq<u8> {
    if start < end {
        p.subrange(start, end)
    } else {
        p
    }
}

/// Whether `p` lies strictly below the directory `dir`.
pub fn descends_from(dir: &Vec<u8>, p: &Vec<u8>) -> (r: bool)
    ensures
        r == is_descendant(dir@, p@),
{
    if dir.len() >= p.len() {
        return false;
    }
    let mut i: usize = 0;
    while i < dir.len()
        invariant
            i <= dir.len() < p.len(),
            p@.subrange(0, i as int) == dir@.subrange(0, i as int),
        decreases dir.len() - i,
    {
        if dir[i] != p[i] {
            assert(p@.subrange(0, dir.len() as int)[i as int] != dir@[i as int]);
            return false;
        }
        assert(p@.subrange(0, i + 1) == p@.subrange(0, i as int).push(p@[i as int]));
        assert(dir@.subrange(0, i + 1) == dir@.subrange(0, i as int).push(dir@[i as int]));
        i = i + 1;
    }
    assert(dir@.subrange(0, dir.len() as int) == dir@);
    p[dir.len()] == SEPARATOR || (dir.len() > 0 && dir[dir.len() - 1] == SEPARATOR)
}

/// The name shown for `p`: its last segment with trailing separators removed,
/// or `p` itself where that segment is empty.
pub fn last_segment(p: &Vec<u8>) -> (r: Vec<u8>)
    ensures
        exists|start: int, end: int|
            is_last_segment(p@, start, end) && r@ == display_name(p@, start, end),
{
    let mut end: usize = p.len();
    while end > 0 && p[end - 1] == SEPARATOR
        invariant
            end <= p.len(),
            forall|k: int| end <= k < p.len() ==> p@[k] == SEPARATOR,
        decreases end,
    {
        end = end - 1;
    }
    let mut start: usize = end;
    while start > 0 && p[start - 1] != SEPARATOR
        invariant
            start <= end <= p.len(),
            forall|k: int| start <= k < end ==> p@[k] != SEPARATOR,
        decreases start,
    {
        start = start - 1;
    }
    assert(is_last_segment(p@, start as int, end as int));
    if start == end {
        return p.clone();
    }
    let mut r: Vec<u8> = Vec::new();
    let mut k: usize = start;
    while k < end
        invariant
            start <= k <= end <= p.len(),
            r@ == p@.subrange(start as int, k as int),
        decreases end - k,
    {
        r.push(p[k]);
        assert(p@.subrange(start as int, k + 1) == p@.subrange(start as int, k as int).push(p@[k as int]));
        k = k + 1;
    }
    r
}

} // verus!
