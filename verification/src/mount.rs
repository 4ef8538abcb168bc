//! Mount boundary detection.
//!
//! A path is the root of a separate mounted filesystem exactly when the
//! device identifier reported by a link-aware stat of the path differs from
//! the one reported for its parent directory. The stat calls themselves are
//! the caller's business; this module holds the decision over their results.

use vstd::prelude::*;

verus! {

/// What the mount boundary detector answers, given the link-aware stat
/// results for a path and for its parent directory.
///
/// - A path with no parent is a filesystem root and always a mount point.
/// - If either device identifier could not be read (`None`), the path is
///   reported as *not* a mount point. This fail-open default is deliberate:
///   the caller's reaction to "mount point" (skipping or unmounting) is more
///   disruptive than treating a borderline path as ordinary.
/// - Otherwise the path is a mount point iff the two identifiers differ.
pub open spec fn spec_is_mountpoint(
    has_parent: bool,
    dev: Option<u64>,
    parent_dev: Option<u64>,
) -> bool {
    if !has_parent {
        true
    } else {
        match (dev, parent_dev) {
            (Some(d), Some(p)) => d != p,
            _ => false,
        }
    }
}

/// Decides whether a path is a mount point from its stat facts:
/// `has_parent` says whether the path has a parent directory at all, and
/// `dev` / `parent_dev` carry the device identifiers of the path and of its
/// parent, `None` standing for a failed stat.
pub fn is_mountpoint(has_parent: bool, dev: Option<u64>, parent_dev: Option<u64>) -> (r: bool)
    ensures
        r == spec_is_mountpoint(has_parent, dev, parent_dev),
{
    if !has_parent {
        return true;
    }
    match (dev, parent_dev) {
        (Some(d), Some(p)) => d != p,
        _ => false,
    }
}

/// A filesystem root (a path with no parent) is always a mount point, and a
/// path whose device identifier is known and differs from its parent's known
/// identifier is always a mount point.
pub proof fn lemma_mountpoint_detection(has_parent: bool, dev: Option<u64>, parent_dev: Option<u64>)
    ensures
        !has_parent ==> spec_is_mountpoint(has_parent, dev, parent_dev),
        (has_parent && dev is Some && parent_dev is Some && dev->0 != parent_dev->0)
            ==> spec_is_mountpoint(has_parent, dev, parent_dev),
{
}

} // verus!
