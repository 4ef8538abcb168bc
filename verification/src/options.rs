//! The configuration of one deletion run. It is built once at startup and
//! read-only for the whole run.

use vstd::prelude::*;

verus! {

/// The safety options of one run.
///
/// `starting_dir` holds the components of the canonical starting path (for
/// `/tmp/victim`, the components `"/"`, `"tmp"`, `"victim"`); it is fixed
/// once at startup and every root-boundary check compares against it.
pub struct DeleteOptions {
    /// Permit descending into directories.
    pub recursive: bool,
    /// When a mount point is found, request an unmount instead of skipping it.
    pub umount: bool,
    /// Compute and report every action but perform no mutation.
    pub dryrun: bool,
    /// Permit deleting paths that resolve outside the starting directory.
    pub allow_delete_above_start: bool,
    /// Permit traversing (not just classifying) symbolic links.
    pub enter_symlinks: bool,
    /// Emit progress narration.
    pub verbose: bool,
    /// Permit deleting entries whose name begins with the hidden-file marker.
    pub allow_hidden_files: bool,
    /// Delete symbolic links themselves, never following them.
    pub remove_symlinks: bool,
    /// The components of the canonical root against which "above start" is judged.
    pub starting_dir: Vec<String>,
}

} // verus!
