//! The guarded deletion engine: an ordered sequence of safety checks decides
//! what happens to each candidate path, and a depth-first walk applies the
//! same checks to every entry of a directory tree independently.
//!
//! The engine never touches a filesystem itself. It works on plain facts — a
//! path's stat results, its canonical components, the snapshot of a tree —
//! and the caller that owns the real filesystem gathers those facts and
//! carries out the decisions.

use vstd::prelude::*;

use crate::mount::is_mountpoint;
use crate::mount::spec_is_mountpoint;
use crate::options::DeleteOptions;
use crate::outcome::Decision;
use crate::outcome::Outcome;
use crate::outcome::Report;
use crate::paths::clone_path;
use crate::paths::is_component_prefix;
use crate::paths::is_hidden_name;
use crate::paths::spec_is_hidden_name;

verus! {

/// The facts about one candidate path that the decision procedure reads.
/// They are exactly what a link-aware look at the real path yields.
pub struct PathFacts {
    /// Whether the path itself is a symbolic link (link-aware: the link, not
    /// its target).
    pub is_symlink: bool,
    /// The components of the canonical (absolute, symlink-resolved) form of
    /// the path; `None` when the path could not be resolved.
    pub canonical: Option<Vec<String>>,
    /// The final component of the path as given; empty when the path has
    /// none (a filesystem root).
    pub name: String,
    /// Whether the path has a parent directory at all.
    pub has_parent: bool,
    /// The device identifier from a link-aware stat of the path; `None` when
    /// the stat failed.
    pub dev: Option<u64>,
    /// The device identifier from a link-aware stat of the parent; `None`
    /// when the stat failed.
    pub parent_dev: Option<u64>,
    /// Whether the path is a directory (following links, so a link to a
    /// directory counts once links may be entered).
    pub is_dir: bool,
}

/// Whether a canonical path (as components) lies within the starting
/// directory: the root's components must be a prefix of the path's. A path
/// that could not be canonicalized at all (`None`) never counts as inside.
pub open spec fn spec_within_root(canonical: Option<Seq<Seq<char>>>, root: Seq<Seq<char>>) -> bool {
    match canonical {
        Some(p) => root.is_prefix_of(p),
        None => false,
    }
}

/// The ordered decision procedure applied to every candidate path. The first
/// matching rule wins; every structural danger check (symlink, root
/// boundary, hidden entry, mount boundary) precedes the destructive action.
///
/// 1. A symbolic link is removed itself when `remove_symlinks` is set, and
///    skipped when it may not be entered; otherwise the walk falls through
///    and dereferences it.
/// 2. Unless `allow_delete_above_start` is set, a path whose canonical form
///    lies outside the starting directory — or cannot be resolved at all —
///    is skipped.
/// 3. Unless `allow_hidden_files` is set, a hidden entry is skipped.
/// 4. A mount point is unmounted when `umount` is set, else skipped.
/// 5. A directory is walked when `recursive` is set, else skipped.
/// 6. What is left is removed.
pub open spec fn spec_decide(
    is_symlink: bool,
    canonical: Option<Seq<Seq<char>>>,
    name: Seq<char>,
    has_parent: bool,
    dev: Option<u64>,
    parent_dev: Option<u64>,
    is_dir: bool,
    opts: DeleteOptions,
) -> Decision {
    if is_symlink && opts.remove_symlinks {
        Decision::RemoveLink
    } else if is_symlink && !opts.enter_symlinks {
        Decision::SkipSymlink
    } else if !opts.allow_delete_above_start && !spec_within_root(
        canonical,
        opts.starting_dir.deep_view(),
    ) {
        Decision::SkipAboveRoot
    } else if !opts.allow_hidden_files && spec_is_hidden_name(name) {
        Decision::SkipHidden
    } else if spec_is_mountpoint(has_parent, dev, parent_dev) {
        if opts.umount {
            Decision::Unmount
        } else {
            Decision::SkipMountPoint
        }
    } else if is_dir {
        if opts.recursive {
            Decision::Recurse
        } else {
            Decision::SkipDir
        }
    } else {
        Decision::Remove
    }
}

/// [`spec_decide`] over a facts record.
pub open spec fn spec_decide_facts(f: PathFacts, opts: DeleteOptions) -> Decision {
    spec_decide(
        f.is_symlink,
        f.canonical.deep_view(),
        f.name@,
        f.has_parent,
        f.dev,
        f.parent_dev,
        f.is_dir,
        opts,
    )
}

/// Decides what happens to one candidate path, by the ordered procedure of
/// [`spec_decide`].
pub fn decide(f: &PathFacts, opts: &DeleteOptions) -> (d: Decision)
    ensures
        d == spec_decide_facts(*f, *opts),
{
    if f.is_symlink && opts.remove_symlinks {
        return Decision::RemoveLink;
    }
    if f.is_symlink && !opts.enter_symlinks {
        return Decision::SkipSymlink;
    }
    if !opts.allow_delete_above_start {
        let inside = match &f.canonical {
            Some(p) => is_component_prefix(&opts.starting_dir, p),
            None => false,
        };
        if !inside {
            return Decision::SkipAboveRoot;
        }
    }
    if !opts.allow_hidden_files && is_hidden_name(f.name.as_str()) {
        return Decision::SkipHidden;
    }
    if is_mountpoint(f.has_parent, f.dev, f.parent_dev) {
        if opts.umount {
            return Decision::Unmount;
        } else {
            return Decision::SkipMountPoint;
        }
    }
    if f.is_dir {
        if opts.recursive {
            return Decision::Recurse;
        } else {
            return Decision::SkipDir;
        }
    }
    Decision::Remove
}

/// One entry of a snapshot of a directory tree, carrying the same per-path
/// facts a link-aware look at the real tree yields. A walk over a snapshot
/// is the complete preview of a run: it reports, for every entry the walk
/// reaches, what the decision procedure settles on.
pub struct Entry {
    /// The entry's name: its final path component.
    pub name: String,
    /// Whether the entry itself is a symbolic link.
    pub is_symlink: bool,
    /// Whether the entry is a directory (following links).
    pub is_dir: bool,
    /// The device identifier from a link-aware stat; `None` when the stat
    /// failed.
    pub dev: Option<u64>,
    /// The components of the entry's canonical path; `None` when it could
    /// not be resolved.
    pub canonical: Option<Vec<String>>,
    /// The entry's immediate children, in enumeration order; empty unless it
    /// is a directory to walk.
    pub children: Vec<Entry>,
}

/// What one report line says, mathematically: the path's components and the
/// outcome decided for it.
pub type ReportView = (Seq<Seq<char>>, Outcome);

/// The decision for one snapshot entry, reached from its parent: the ordered
/// procedure of [`spec_decide`] applied to the entry's own facts.
pub open spec fn spec_entry_decision(
    e: Entry,
    has_parent: bool,
    parent_dev: Option<u64>,
    opts: DeleteOptions,
) -> Decision {
    spec_decide(
        e.is_symlink,
        e.canonical.deep_view(),
        e.name@,
        has_parent,
        e.dev,
        parent_dev,
        e.is_dir,
        opts,
    )
}

/// The report sequence a walk of the entry `e` produces. `prefix` holds the
/// components of the directory `e` sits in, and `has_parent` / `parent_dev`
/// the facts the mount check needs about that parent.
///
/// A directory that is walked reports all of its children first, depth-first
/// and in enumeration order, and its own removal last; every other decision
/// is terminal and reports exactly one line. A skipped entry's children are
/// never visited.
pub open spec fn spec_delete(
    e: Entry,
    prefix: Seq<Seq<char>>,
    has_parent: bool,
    parent_dev: Option<u64>,
    opts: DeleteOptions,
) -> Seq<ReportView>
    decreases e, 0nat,
{
    let p = prefix.push(e.name@);
    match spec_entry_decision(e, has_parent, parent_dev, opts) {
        Decision::RemoveLink => seq![(p, Outcome::Deleted)],
        Decision::SkipSymlink => seq![(p, Outcome::SkippedSymlink)],
        Decision::SkipAboveRoot => seq![(p, Outcome::SkippedAboveRoot)],
        Decision::SkipHidden => seq![(p, Outcome::SkippedHidden)],
        Decision::Unmount => seq![(p, Outcome::Unmounted)],
        Decision::SkipMountPoint => seq![(p, Outcome::SkippedMountPoint)],
        Decision::SkipDir => seq![(p, Outcome::SkippedNotRecursiveDirectory)],
        Decision::Recurse => spec_delete_from(e.children@, 0, p, e.dev, opts).push(
            (p, Outcome::Deleted),
        ),
        Decision::Remove => seq![(p, Outcome::Deleted)],
    }
}

/// The reports of the children `children[i..]`, walked in order, each as an
/// independent candidate under the directory whose components are `prefix`
/// and whose link-aware device identifier is `parent_dev`.
pub open spec fn spec_delete_from(
    children: Seq<Entry>,
    i: int,
    prefix: Seq<Seq<char>>,
    parent_dev: Option<u64>,
    opts: DeleteOptions,
) -> Seq<ReportView>
    decreases children, children.len() - i + 1,
{
    if i < 0 || i >= children.len() {
        Seq::empty()
    } else {
        spec_delete(children[i], prefix, true, parent_dev, opts) + spec_delete_from(
            children,
            i + 1,
            prefix,
            parent_dev,
            opts,
        )
    }
}

/// A report sequence of one line.
fn single_report(path: Vec<String>, outcome: Outcome) -> (r: Vec<Report>)
    ensures
        r.deep_view() == seq![(path.deep_view(), outcome)],
{
    let ghost expected: Seq<ReportView> = seq![(path.deep_view(), outcome)];
    let mut r: Vec<Report> = Vec::new();
    r.push(Report { path, outcome });
    proof {
        assert(r.deep_view() =~= expected);
    }
    r
}

/// Walks one snapshot entry, applying the full decision procedure to it and,
/// depth-first, to every child of a directory it may enter, and returns one
/// report per visited path, children before their directory. The walk is a
/// plan over the snapshot alone: it mutates nothing, so it is also the
/// complete preview a dry run prints.
pub fn delete(
    e: &Entry,
    prefix: &Vec<String>,
    has_parent: bool,
    parent_dev: Option<u64>,
    opts: &DeleteOptions,
) -> (reports: Vec<Report>)
    ensures
        reports.deep_view() == spec_delete(*e, prefix.deep_view(), has_parent, parent_dev, *opts),
    decreases *e,
{
    let canonical: Option<Vec<String>> = match &e.canonical {
        Some(p) => Some(clone_path(p)),
        None => None,
    };
    let facts = PathFacts {
        is_symlink: e.is_symlink,
        canonical,
        name: e.name.clone(),
        has_parent,
        dev: e.dev,
        parent_dev,
        is_dir: e.is_dir,
    };
    let d = decide(&facts, opts);
    proof {
        assert(d == spec_entry_decision(*e, has_parent, parent_dev, *opts));
    }
    let mut full = clone_path(prefix);
    full.push(e.name.clone());
    let ghost p: Seq<Seq<char>> = prefix.deep_view().push(e.name@);
    proof {
        assert(full.deep_view() =~= p);
    }
    match d {
        Decision::RemoveLink => single_report(full, Outcome::Deleted),
        Decision::SkipSymlink => single_report(full, Outcome::SkippedSymlink),
        Decision::SkipAboveRoot => single_report(full, Outcome::SkippedAboveRoot),
        Decision::SkipHidden => single_report(full, Outcome::SkippedHidden),
        Decision::Unmount => single_report(full, Outcome::Unmounted),
        Decision::SkipMountPoint => single_report(full, Outcome::SkippedMountPoint),
        Decision::SkipDir => single_report(full, Outcome::SkippedNotRecursiveDirectory),
        Decision::Remove => single_report(full, Outcome::Deleted),
        Decision::Recurse => {
            let mut reports: Vec<Report> = Vec::new();
            let mut i: usize = 0;
            while i < e.children.len()
                invariant
                    0 <= i <= e.children.len(),
                    full.deep_view() == p,
                    reports.deep_view() + spec_delete_from(
                        e.children@,
                        i as int,
                        p,
                        e.dev,
                        *opts,
                    ) == spec_delete_from(e.children@, 0, p, e.dev, *opts),
                decreases e.children.len() - i,
            {
                let ghost reports_before = reports.deep_view();
                let mut rs = delete(&e.children[i], &full, true, e.dev, opts);
                let ghost rs_view = rs.deep_view();
                reports.append(&mut rs);
                proof {
                    assert(reports.deep_view() =~= reports_before + rs_view);
                    assert(reports_before + (rs_view + spec_delete_from(
                        e.children@,
                        i + 1,
                        p,
                        e.dev,
                        *opts,
                    )) =~= (reports_before + rs_view) + spec_delete_from(
                        e.children@,
                        i + 1,
                        p,
                        e.dev,
                        *opts,
                    ));
                }
                i = i + 1;
            }
            proof {
                assert(reports.deep_view() + Seq::<ReportView>::empty() =~= reports.deep_view());
            }
            reports.push(Report { path: full, outcome: Outcome::Deleted });
            proof {
                assert(reports.deep_view() =~= spec_delete_from(
                    e.children@,
                    0,
                    p,
                    e.dev,
                    *opts,
                ).push((p, Outcome::Deleted)));
            }
            reports
        },
    }
}

} // verus!
