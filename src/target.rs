//! Watch targets and the options that shape them.
use vstd::prelude::*;

use crate::path::is_descendant;

verus! {

/// What a watched path was found to be when it was registered.
#[derive(Clone, Copy, Debug, PartialEq, Eq, Structural)]
pub enum TargetKind {
    File,
    Directory,
}

/// How a target is subscribed with the notification backend.
#[derive(Clone, Copy, Debug, PartialEq, Eq, Structural)]
pub enum WatchMode {
    /// The path itself and, for a directory, everything below it.
    Recursive,
    /// The path itself only.
    NonRecursive,
}

/// A path registered for change notification. Immutable once created.
#[derive(Clone, Debug)]
pub struct WatchTarget {
    pub path: Vec<u8>,
    pub kind: TargetKind,
    pub recursive: bool,
}

/// The command line surface: the command to run and the two flags.
#[derive(Clone, Debug)]
pub struct Options {
    /// Watch directories recursively; files are unaffected.
    pub recursive: bool,
    /// Emit one line per triggered run, naming the file and the command.
    pub log: bool,
    /// The shell command line run on each trigger.
    pub cmd: String,
}

impl WatchTarget {
    /// Recursion is only ever set on a directory.
    pub open spec fn wf(&self) -> bool {
        self.recursive ==> self.kind == TargetKind::Directory
    }

    /// The target covers `p`: `p` is the target's own path, or lies below it
    /// when the target is a recursively watched directory.
    pub open spec fn covers(&self, p: Seq<u8>) -> bool {
        p == self.path@ || (self.recursive && is_descendant(self.path@, p))
    }

    /// A target for `path`, which the caller found to be a directory or not;
    /// `recursive` is the command line flag.
    pub fn new(path: Vec<u8>, is_dir: bool, recursive: bool) -> (r: WatchTarget)
        ensures
            r.wf(),
            r.path@ == path@,
            r.kind == (if is_dir { TargetKind::Directory } else { TargetKind::File }),
            r.recursive == (is_dir && recursive),
    {
        WatchTarget {
            path,
            kind: if is_dir { TargetKind::Directory } else { TargetKind::File },
            recursive: is_dir && recursive,
        }
    }

    /// The mode in which the backend subscribes this target.
    pub fn mode(&self) -> (r: WatchMode)
        ensures
            r == (if self.recursive { WatchMode::Recursive } else { WatchMode::NonRecursive }),
    {
        if self.recursive {
            WatchMode::Recursive
        } else {
            WatchMode::NonRecursive
        }
    }
}

/// Every target of the set is well formed.
pub open spec fn all_wf(targets: Seq<WatchTarget>) -> bool {
    forall|i: int| 0 <= i < targets.len() ==> (#[trigger] targets[i]).wf()
}

/// Some target of the set covers `p`.
pub open spec fn is_watched(targets: Seq<WatchTarget>, p: Seq<u8>) -> bool {
    exists|i: int| 0 <= i < targets.len() && (#[trigger] targets[i]).covers(p)
}

} // verus!
