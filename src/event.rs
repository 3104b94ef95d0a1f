//! Raw notifications as the backend delivers them.
use vstd::prelude::*;

verus! {

/// What a raw notification reports, as the backend classifies it.
#[derive(Clone, Copy, Debug, PartialEq, Eq, Structural)]
pub enum ChangeKind {
    /// The backend could not tell what happened.
    Any,
    Access,
    Create,
    /// The contents of a file changed.
    ModifyData,
    /// The metadata of a path changed (permissions, times, ownership).
    ModifyMetadata,
    /// A path was renamed.
    ModifyName,
    /// Some other or unknown modification.
    ModifyOther,
    Remove,
    Other,
}

/// One notification: what happened, and the paths it concerns.
#[derive(Clone, Debug)]
pub struct RawEvent {
    pub kind: ChangeKind,
    pub paths: Vec<Vec<u8>>,
}

/// The paths of an event, as byte sequences.
pub open spec fn event_paths(e: &RawEvent) -> Seq<Seq<u8>> {
    e.paths@.map_values(|p: Vec<u8>| p@)
}

} // verus!
