//! The guarantees of the decision procedure and of the walk, stated and
//! proved once and for all inputs. Each proof function is a law of the
//! engine; the walk mutates nothing, so "exactly one report, the entry's
//! own" also says that nothing below the entry is ever visited or touched.

use vstd::prelude::*;

use crate::engine::spec_delete;
use crate::engine::spec_delete_from;
use crate::engine::spec_entry_decision;
use crate::engine::spec_within_root;
use crate::engine::Entry;
use crate::mount::spec_is_mountpoint;
use crate::options::DeleteOptions;
use crate::outcome::Outcome;
use crate::paths::spec_is_hidden_name;

verus! {

/// A path that resolves outside the starting directory — or not at all — is
/// skipped as above the root whenever deleting above the start is not
/// allowed, unless the symlink rules settled it first; the walk reports that
/// one skip and visits nothing below the path.
pub proof fn lemma_above_root_is_skipped(
    e: Entry,
    prefix: Seq<Seq<char>>,
    has_parent: bool,
    parent_dev: Option<u64>,
    opts: DeleteOptions,
)
    requires
        !opts.allow_delete_above_start,
        !spec_within_root(e.canonical.deep_view(), opts.starting_dir.deep_view()),
        !(e.is_symlink && (opts.remove_symlinks || !opts.enter_symlinks)),
    ensures
        spec_delete(e, prefix, has_parent, parent_dev, opts) == seq![
            (prefix.push(e.name@), Outcome::SkippedAboveRoot),
        ],
{
}

/// A symbolic link is removed itself whenever link removal is requested,
/// whatever the other options say: the walk reports that one removal and
/// never visits the link's target.
pub proof fn lemma_remove_symlinks_never_follows(
    e: Entry,
    prefix: Seq<Seq<char>>,
    has_parent: bool,
    parent_dev: Option<u64>,
    opts: DeleteOptions,
)
    requires
        e.is_symlink,
        opts.remove_symlinks,
    ensures
        spec_delete(e, prefix, has_parent, parent_dev, opts) == seq![
            (prefix.push(e.name@), Outcome::Deleted),
        ],
{
}

/// A symbolic link that may neither be removed nor entered is skipped: the
/// walk reports that one skip and never visits the link's target.
pub proof fn lemma_symlink_not_entered(
    e: Entry,
    prefix: Seq<Seq<char>>,
    has_parent: bool,
    parent_dev: Option<u64>,
    opts: DeleteOptions,
)
    requires
        e.is_symlink,
        !opts.remove_symlinks,
        !opts.enter_symlinks,
    ensures
        spec_delete(e, prefix, has_parent, parent_dev, opts) == seq![
            (prefix.push(e.name@), Outcome::SkippedSymlink),
        ],
{
}

/// Without the recursion option no entry is ever entered: the walk of any
/// entry — a directory in particular — produces exactly one report, about
/// the entry itself, so no descendant is visited or removed.
pub proof fn lemma_not_recursive_never_descends(
    e: Entry,
    prefix: Seq<Seq<char>>,
    has_parent: bool,
    parent_dev: Option<u64>,
    opts: DeleteOptions,
)
    requires
        !opts.recursive,
    ensures
        spec_delete(e, prefix, has_parent, parent_dev, opts).len() == 1,
        spec_delete(e, prefix, has_parent, parent_dev, opts)[0].0 == prefix.push(e.name@),
{
}

/// A hidden entry is skipped whenever hidden entries may not be deleted,
/// unless an earlier rule (symlink handling, the root boundary) settled it
/// first; the walk reports that one skip and visits nothing below it.
pub proof fn lemma_hidden_is_skipped(
    e: Entry,
    prefix: Seq<Seq<char>>,
    has_parent: bool,
    parent_dev: Option<u64>,
    opts: DeleteOptions,
)
    requires
        !opts.allow_hidden_files,
        spec_is_hidden_name(e.name@),
        !(e.is_symlink && (opts.remove_symlinks || !opts.enter_symlinks)),
        opts.allow_delete_above_start || spec_within_root(
            e.canonical.deep_view(),
            opts.starting_dir.deep_view(),
        ),
    ensures
        spec_delete(e, prefix, has_parent, parent_dev, opts) == seq![
            (prefix.push(e.name@), Outcome::SkippedHidden),
        ],
{
}

/// When hidden entries may be deleted, the hidden check is bypassed
/// everywhere: no report of the walk, however deep, is a hidden skip. All
/// other checks still apply.
pub proof fn lemma_allow_hidden_bypasses_check(
    e: Entry,
    prefix: Seq<Seq<char>>,
    has_parent: bool,
    parent_dev: Option<u64>,
    opts: DeleteOptions,
)
    requires
        opts.allow_hidden_files,
    ensures
        forall|k: int|
            0 <= k < spec_delete(e, prefix, has_parent, parent_dev, opts).len()
                ==> spec_delete(e, prefix, has_parent, parent_dev, opts)[k].1
                != Outcome::SkippedHidden,
    decreases e, 0nat,
{
    let reports = spec_delete(e, prefix, has_parent, parent_dev, opts);
    let p = prefix.push(e.name@);
    if spec_entry_decision(e, has_parent, parent_dev, opts) is Recurse {
        let child_reports = spec_delete_from(e.children@, 0, p, e.dev, opts);
        lemma_allow_hidden_bypasses_check_from(e.children@, 0, p, e.dev, opts);
        assert forall|k: int| 0 <= k < reports.len() implies reports[k].1
            != Outcome::SkippedHidden by {
            if k < child_reports.len() {
                assert(reports[k] == child_reports[k]);
            } else {
                assert(reports[k] == (p, Outcome::Deleted));
            }
        }
    }
}

/// [`lemma_allow_hidden_bypasses_check`], for the walk of the children
/// `children[i..]`.
pub proof fn lemma_allow_hidden_bypasses_check_from(
    children: Seq<Entry>,
    i: int,
    prefix: Seq<Seq<char>>,
    parent_dev: Option<u64>,
    opts: DeleteOptions,
)
    requires
        opts.allow_hidden_files,
    ensures
        forall|k: int|
            0 <= k < spec_delete_from(children, i, prefix, parent_dev, opts).len()
                ==> spec_delete_from(children, i, prefix, parent_dev, opts)[k].1
                != Outcome::SkippedHidden,
    decreases children, children.len() - i + 1,
{
    if 0 <= i < children.len() {
        let head = spec_delete(children[i], prefix, true, parent_dev, opts);
        let tail = spec_delete_from(children, i + 1, prefix, parent_dev, opts);
        lemma_allow_hidden_bypasses_check(children[i], prefix, true, parent_dev, opts);
        lemma_allow_hidden_bypasses_check_from(children, i + 1, prefix, parent_dev, opts);
        assert forall|k: int| 0 <= k < (head + tail).len() implies (head + tail)[k].1
            != Outcome::SkippedHidden by {
            if k < head.len() {
                assert((head + tail)[k] == head[k]);
            } else {
                assert((head + tail)[k] == tail[k - head.len()]);
            }
        }
    }
}

/// A mount point is skipped whole whenever no unmount is requested, unless
/// an earlier rule settled the path first: the walk reports that one skip
/// and never enumerates the mount point's contents.
pub proof fn lemma_mount_point_skipped_whole(
    e: Entry,
    prefix: Seq<Seq<char>>,
    has_parent: bool,
    parent_dev: Option<u64>,
    opts: DeleteOptions,
)
    requires
        spec_is_mountpoint(has_parent, e.dev, parent_dev),
        !opts.umount,
        !(e.is_symlink && (opts.remove_symlinks || !opts.enter_symlinks)),
        opts.allow_delete_above_start || spec_within_root(
            e.canonical.deep_view(),
            opts.starting_dir.deep_view(),
        ),
        opts.allow_hidden_files || !spec_is_hidden_name(e.name@),
    ensures
        spec_delete(e, prefix, has_parent, parent_dev, opts) == seq![
            (prefix.push(e.name@), Outcome::SkippedMountPoint),
        ],
{
}

/// The walk is a pure plan: the options that only gate execution — the dry
/// run switch and the narration switch — never change what it reports. A dry
/// run is therefore a complete preview, and running it twice in a row
/// produces the identical report sequence.
pub proof fn lemma_plan_ignores_dryrun_and_verbose(
    e: Entry,
    prefix: Seq<Seq<char>>,
    has_parent: bool,
    parent_dev: Option<u64>,
    opts1: DeleteOptions,
    opts2: DeleteOptions,
)
    requires
        opts1.recursive == opts2.recursive,
        opts1.umount == opts2.umount,
        opts1.allow_delete_above_start == opts2.allow_delete_above_start,
        opts1.enter_symlinks == opts2.enter_symlinks,
        opts1.allow_hidden_files == opts2.allow_hidden_files,
        opts1.remove_symlinks == opts2.remove_symlinks,
        opts1.starting_dir.deep_view() == opts2.starting_dir.deep_view(),
    ensures
        spec_delete(e, prefix, has_parent, parent_dev, opts1) == spec_delete(
            e,
            prefix,
            has_parent,
            parent_dev,
            opts2,
        ),
    decreases e, 0nat,
{
    assert(spec_entry_decision(e, has_parent, parent_dev, opts1) == spec_entry_decision(
        e,
        has_parent,
        parent_dev,
        opts2,
    ));
    if spec_entry_decision(e, has_parent, parent_dev, opts1) is Recurse {
        let p = prefix.push(e.name@);
        lemma_plan_ignores_dryrun_and_verbose_from(e.children@, 0, p, e.dev, opts1, opts2);
    }
}

/// [`lemma_plan_ignores_dryrun_and_verbose`], for the walk of the children
/// `children[i..]`.
pub proof fn lemma_plan_ignores_dryrun_and_verbose_from(
    children: Seq<Entry>,
    i: int,
    prefix: Seq<Seq<char>>,
    parent_dev: Option<u64>,
    opts1: DeleteOptions,
    opts2: DeleteOptions,
)
    requires
        opts1.recursive == opts2.recursive,
        opts1.umount == opts2.umount,
        opts1.allow_delete_above_start == opts2.allow_delete_above_start,
        opts1.enter_symlinks == opts2.enter_symlinks,
        opts1.allow_hidden_files == opts2.allow_hidden_files,
        opts1.remove_symlinks == opts2.remove_symlinks,
        opts1.starting_dir.deep_view() == opts2.starting_dir.deep_view(),
    ensures
        spec_delete_from(children, i, prefix, parent_dev, opts1) == spec_delete_from(
            children,
            i,
            prefix,
            parent_dev,
            opts2,
        ),
    decreases children, children.len() - i + 1,
{
    if 0 <= i < children.len() {
        lemma_plan_ignores_dryrun_and_verbose(children[i], prefix, true, parent_dev, opts1, opts2);
        lemma_plan_ignores_dryrun_and_verbose_from(
            children,
            i + 1,
            prefix,
            parent_dev,
            opts1,
            opts2,
        );
    }
}

} // verus!
