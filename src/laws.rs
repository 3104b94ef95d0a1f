//! Properties of classification and dispatch that hold for all inputs.
use vstd::prelude::*;

use crate::classify::{classified_as, is_trigger};
use crate::dispatch::{LoopModel, LoopState, after_event, after_outcome, count_triggers, serve};
use crate::event::{ChangeKind, RawEvent, event_paths};
use crate::path::SEPARATOR;
use crate::target::{TargetKind, WatchTarget, is_watched};

verus! {

/// A metadata change reported on the path of any registered target is a
/// trigger, and a listening loop starts exactly one run for it, however many
/// of the event's paths are watched.
pub proof fn lemma_watched_change_runs_once(targets: Seq<WatchTarget>, e: &RawEvent, i: int, j: int, m: LoopModel)
    requires
        0 <= i < targets.len(),
        0 <= j < e.paths.len(),
        e.kind == ChangeKind::ModifyMetadata,
        event_paths(e)[j] == targets[i].path@,
        m.0 == LoopState::Listening,
    ensures
        is_trigger(e, targets),
        after_event(targets, m, e) == (LoopState::Dispatching, m.1 + 1, m.2),
{
    assert(targets[i].covers(event_paths(e)[j]));
    assert(is_watched(targets, event_paths(e)[j]));
}

/// A notification of any kind but a metadata change starts no run and leaves
/// the loop as it was.
pub proof fn lemma_other_kinds_never_run(targets: Seq<WatchTarget>, e: &RawEvent, m: LoopModel)
    requires
        e.kind != ChangeKind::ModifyMetadata,
    ensures
        !is_trigger(e, targets),
        after_event(targets, m, e) == m,
{
}

/// A notification none of whose paths is covered by a target starts no run
/// and leaves the loop as it was, whatever its kind.
pub proof fn lemma_unwatched_paths_never_run(targets: Seq<WatchTarget>, e: &RawEvent, m: LoopModel)
    requires
        forall|j: int, i: int| 0 <= j < e.paths.len() && 0 <= i < targets.len()
            ==> !(#[trigger] targets[i]).covers(#[trigger] event_paths(e)[j]),
    ensures
        !is_trigger(e, targets),
        after_event(targets, m, e) == m,
{
}

/// A path any number of levels below a watched directory is covered exactly
/// when the directory is watched recursively; so a metadata change there
/// triggers under recursive watching and not otherwise.
pub proof fn lemma_recursion_reaches_any_depth(t: WatchTarget, rest: Seq<u8>, e: &RawEvent)
    requires
        t.kind == TargetKind::Directory,
        rest.len() > 0,
        e.kind == ChangeKind::ModifyMetadata,
        event_paths(e) == seq![t.path@ + seq![SEPARATOR] + rest],
    ensures
        t.covers(t.path@ + seq![SEPARATOR] + rest) == t.recursive,
        is_trigger(e, seq![t]) == t.recursive,
{
    let p = t.path@ + seq![SEPARATOR] + rest;
    assert(p.subrange(0, t.path@.len() as int) == t.path@);
    assert(p[t.path@.len() as int] == SEPARATOR);
    assert(p.len() > t.path@.len());
    assert(p != t.path@);
    assert(event_paths(e)[0] == p);
    assert(e.paths@.len() == event_paths(e).len());
    if t.recursive {
        assert(seq![t][0].covers(p));
        assert(is_watched(seq![t], event_paths(e)[0]));
    } else {
        assert forall|j: int| 0 <= j < e.paths.len() implies !is_watched(seq![t], #[trigger] event_paths(e)[j]) by {
            assert(j == 0);
            assert forall|i: int| 0 <= i < 1 implies !(#[trigger] seq![t][i]).covers(p) by {
                assert(seq![t][i] == t);
            }
        }
    }
}

/// Serving any burst of notifications from a listening loop with nothing in
/// flight starts one run per trigger, one at a time: each run has ended
/// before the next notification is taken, and the loop ends up listening
/// with every run ended.
pub proof fn lemma_burst_is_serialized(targets: Seq<WatchTarget>, m: LoopModel, events: Seq<RawEvent>)
    requires
        m.0 == LoopState::Listening,
        m.1 == m.2,
    ensures
        serve(targets, m, events) == (
            LoopState::Listening,
            m.1 + count_triggers(targets, events),
            m.2 + count_triggers(targets, events),
        ),
    decreases events.len(),
{
    if events.len() > 0 {
        lemma_burst_is_serialized(targets, m, events.drop_last());
        let before = serve(targets, m, events.drop_last());
        let next = after_event(targets, before, &events.last());
        if is_trigger(&events.last(), targets) {
            assert(next.1 == next.2 + 1);
            assert(after_outcome(next).1 == after_outcome(next).2);
        }
    }
}

/// Classification depends on the event and the target set alone: any two
/// classifications of one event against one set agree.
pub proof fn lemma_classification_is_unique(e: &RawEvent, targets: Seq<WatchTarget>, r1: Option<usize>, r2: Option<usize>)
    requires
        classified_as(e, targets, r1),
        classified_as(e, targets, r2),
    ensures
        r1 == r2,
{
    match (r1, r2) {
        (Some(i1), Some(i2)) => {
            if i1 < i2 {
                assert(!is_watched(targets, event_paths(e)[i1 as int]));
            } else if i2 < i1 {
                assert(!is_watched(targets, event_paths(e)[i2 as int]));
            }
        },
        (Some(i1), None) => {
            assert(is_watched(targets, event_paths(e)[i1 as int]));
        },
        (None, Some(i2)) => {
            assert(is_watched(targets, event_paths(e)[i2 as int]));
        },
        (None, None) => {},
    }
}

} // verus!
