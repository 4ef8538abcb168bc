//! A guarded file-deletion engine: before any path is removed, an ordered
//! sequence of safety checks (symlink, root-boundary, hidden entry, mount
//! boundary, directory recursion) decides what happens to it. The decision
//! procedure and the depth-first traversal live here and are verified; the
//! surrounding program gathers the filesystem facts and performs the actions
//! the engine decides on.

pub mod engine;
pub mod laws;
pub mod mount;
pub mod options;
pub mod outcome;
pub mod paths;

pub use engine::decide;
pub use engine::delete;
pub use engine::Entry;
pub use engine::PathFacts;
pub use mount::is_mountpoint;
pub use mount::spec_is_mountpoint;
pub use options::DeleteOptions;
pub use outcome::Decision;
pub use outcome::Outcome;
pub use outcome::Report;
