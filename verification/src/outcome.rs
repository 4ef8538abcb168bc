//! What the engine decides about a path, and what a run reports for it.

use vstd::prelude::*;

verus! {

/// The action the decision procedure settles on for one path. The caller that
/// owns the real filesystem performs it; the engine only decides.
#[derive(Clone, Copy, Debug, PartialEq, Eq, Structural)]
pub enum Decision {
    /// The path is a symbolic link and links are to be removed: delete the
    /// link itself, never its target, and stop.
    RemoveLink,
    /// The path is a symbolic link that may neither be removed nor entered.
    SkipSymlink,
    /// The path resolves outside the starting directory (or cannot be
    /// resolved at all) and deleting above the start is not allowed.
    SkipAboveRoot,
    /// The entry is hidden and hidden entries may not be deleted.
    SkipHidden,
    /// The path is a mount point and unmounting was requested: unmount it and
    /// stop; nothing under it is deleted.
    Unmount,
    /// The path is a mount point and unmounting was not requested.
    SkipMountPoint,
    /// The path is a directory but descending was not allowed.
    SkipDir,
    /// The path is a directory to walk: process every child first, then
    /// remove the (by then empty) directory itself.
    Recurse,
    /// Remove the path itself.
    Remove,
}

/// The reported outcome for one path. Every path a run touches gets exactly
/// one outcome; a skip on one path never aborts its siblings or ancestors.
#[derive(Clone, Debug, PartialEq, Eq)]
pub enum Outcome {
    /// The path (a file, an emptied directory, or a symbolic link) was
    /// removed — or would have been, in a dry run.
    Deleted,
    /// The path is a mount point and an unmount was requested for it.
    Unmounted,
    /// Skipped: a symbolic link that may neither be removed nor entered.
    SkippedSymlink,
    /// Skipped: the path resolves outside the starting directory.
    SkippedAboveRoot,
    /// Skipped: a hidden entry.
    SkippedHidden,
    /// Skipped: a mount point, with no unmount requested.
    SkippedMountPoint,
    /// Skipped: a directory, with recursion not allowed.
    SkippedNotRecursiveDirectory,
    /// The removal itself failed, with the underlying reason; the run
    /// continues past it.
    DeletionError(String),
}

/// One line of a run's report: the path the decision was about, as
/// components, and its outcome.
#[derive(Clone, Debug, PartialEq, Eq)]
pub struct Report {
    /// The components of the path (for `/tmp/victim/a.txt`: `"/"`, `"tmp"`,
    /// `"victim"`, `"a.txt"`).
    pub path: Vec<String>,
    /// What happened to it.
    pub outcome: Outcome,
}

impl DeepView for Report {
    type V = (Seq<Seq<char>>, Outcome);

    open spec fn deep_view(&self) -> (Seq<Seq<char>>, Outcome) {
        (self.path.deep_view(), self.outcome)
    }
}

} // verus!
