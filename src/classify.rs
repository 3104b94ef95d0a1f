//! Deciding which raw notifications trigger the command.
use vstd::prelude::*;

use crate::event::{ChangeKind, RawEvent, event_paths};
use crate::path::descends_from;
use crate::target::{WatchTarget, is_watched};

verus! {

/// `r` is the classification of `e` against `targets`: the index of the first
/// watched path of a metadata change, or `None` where the event is no trigger.
pub open spec fn classified_as(e: &RawEvent, targets: Seq<WatchTarget>, r: Option<usize>) -> bool {
    match r {
        Some(i) => {
            &&& e.kind == ChangeKind::ModifyMetadata
            &&& i < e.paths.len()
            &&& is_watched(targets, event_paths(e)[i as int])
            &&& forall|j: int| 0 <= j < i ==> !is_watched(targets, #[trigger] event_paths(e)[j])
        },
        None => !is_trigger(e, targets),
    }
}

/// The event reports a metadata change on at least one watched path.
pub open spec fn is_trigger(e: &RawEvent, targets: Seq<WatchTarget>) -> bool {
    &&& e.kind == ChangeKind::ModifyMetadata
    &&& exists|j: int| 0 <= j < e.paths.len() && is_watched(targets, #[trigger] event_paths(e)[j])
}

/// Whether two byte strings are equal.
fn same_bytes(a: &Vec<u8>, b: &Vec<u8>) -> (r: bool)
    ensures
        r == (a@ == b@),
{
    if a.len() != b.len() {
        return false;
    }
    let mut i: usize = 0;
    while i < a.len()
        invariant
            a.len() == b.len(),
            i <= a.len(),
            forall|k: int| 0 <= k < i ==> a@[k] == b@[k],
        decreases a.len() - i,
    {
        if a[i] != b[i] {
            return false;
        }
        i = i + 1;
    }
    assert(a@ =~= b@);
    true
}

/// Whether `t` covers the path `p`.
pub fn target_covers(t: &WatchTarget, p: &Vec<u8>) -> (r: bool)
    ensures
        r == t.covers(p@),
{
    same_bytes(p, &t.path) || (t.recursive && descends_from(&t.path, p))
}

/// Whether some target of `targets` covers `p`.
pub fn watched(targets: &Vec<WatchTarget>, p: &Vec<u8>) -> (r: bool)
    ensures
        r == is_watched(targets@, p@),
{
    let mut i: usize = 0;
    while i < targets.len()
        invariant
            i <= targets.len(),
            forall|k: int| 0 <= k < i ==> !(#[trigger] targets@[k]).covers(p@),
        decreases targets.len() - i,
    {
        if target_covers(&targets[i], p) {
            return true;
        }
        i = i + 1;
    }
    false
}

/// Classifies `e` against `targets`: `Some(i)` where `e` is a metadata change
/// and `paths[i]` is the first of its paths that is watched, `None` otherwise.
/// One event yields at most one trigger, however many of its paths match.
pub fn classify(e: &RawEvent, targets: &Vec<WatchTarget>) -> (r: Option<usize>)
    ensures
        classified_as(e, targets@, r),
        r.is_some() == is_trigger(e, targets@),
{
    if e.kind != ChangeKind::ModifyMetadata {
        return None;
    }
    let mut j: usize = 0;
    while j < e.paths.len()
        invariant
            e.kind == ChangeKind::ModifyMetadata,
            j <= e.paths.len(),
            forall|k: int| 0 <= k < j ==> !is_watched(targets@, #[trigger] event_paths(e)[k]),
        decreases e.paths.len() - j,
    {
        if watched(targets, &e.paths[j]) {
            assert(event_paths(e)[j as int] == e.paths@[j as int]@);
            return Some(j);
        }
        j = j + 1;
    }
    None
}

} // verus!
