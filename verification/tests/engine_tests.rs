use saferm::decide;
use saferm::delete;
use saferm::is_mountpoint;
use saferm::Decision;
use saferm::DeleteOptions;
use saferm::Entry;
use saferm::Outcome;
use saferm::PathFacts;
use saferm::paths::is_component_prefix;
use saferm::paths::is_hidden_name;
use saferm::Report;

fn comps(parts: &[&str]) -> Vec<String> {
    parts.iter().map(|s| s.to_string()).collect()
}

fn base_opts(start: &[&str]) -> DeleteOptions {
    DeleteOptions {
        recursive: false,
        umount: false,
        dryrun: true,
        allow_delete_above_start: false,
        enter_symlinks: false,
        verbose: false,
        allow_hidden_files: false,
        remove_symlinks: false,
        starting_dir: comps(start),
    }
}

fn file(name: &str, dev: u64, canonical: &[&str]) -> Entry {
    Entry {
        name: name.to_string(),
        is_symlink: false,
        is_dir: false,
        dev: Some(dev),
        canonical: Some(comps(canonical)),
        children: Vec::new(),
    }
}

fn dir(name: &str, dev: u64, canonical: &[&str], children: Vec<Entry>) -> Entry {
    Entry {
        name: name.to_string(),
        is_symlink: false,
        is_dir: true,
        dev: Some(dev),
        canonical: Some(comps(canonical)),
        children,
    }
}

fn link(name: &str, dev: u64, canonical: &[&str]) -> Entry {
    Entry {
        name: name.to_string(),
        is_symlink: true,
        is_dir: false,
        dev: Some(dev),
        canonical: Some(comps(canonical)),
        children: Vec::new(),
    }
}

fn plain_facts(name: &str, canonical: &[&str]) -> PathFacts {
    PathFacts {
        is_symlink: false,
        canonical: Some(comps(canonical)),
        name: name.to_string(),
        has_parent: true,
        dev: Some(1),
        parent_dev: Some(1),
        is_dir: false,
    }
}

fn outcomes(reports: &[Report]) -> Vec<Outcome> {
    reports.iter().map(|r| r.outcome.clone()).collect()
}

#[test]
fn hidden_names_start_with_a_dot() {
    assert!(is_hidden_name(".secret"));
    assert!(is_hidden_name("."));
    assert!(!is_hidden_name("a.txt"));
    assert!(!is_hidden_name(""));
}

#[test]
fn component_prefix_is_componentwise() {
    assert!(is_component_prefix(
        &comps(&["/", "tmp"]),
        &comps(&["/", "tmp", "victim"])
    ));
    assert!(is_component_prefix(&comps(&["/", "tmp"]), &comps(&["/", "tmp"])));
    assert!(is_component_prefix(&comps(&[]), &comps(&["/", "etc"])));
    assert!(!is_component_prefix(
        &comps(&["/", "tmp", "victim"]),
        &comps(&["/", "tmp"])
    ));
    // A prefix of the final component's characters is not a component prefix.
    assert!(!is_component_prefix(
        &comps(&["/", "tmp", "vic"]),
        &comps(&["/", "tmp", "victim"])
    ));
}

#[test]
fn mountpoint_root_is_always_mountpoint() {
    assert!(is_mountpoint(false, None, None));
    assert!(is_mountpoint(false, Some(3), Some(3)));
}

#[test]
fn mountpoint_differing_devices() {
    assert!(is_mountpoint(true, Some(1), Some(2)));
    assert!(!is_mountpoint(true, Some(7), Some(7)));
}

#[test]
fn mountpoint_failed_stat_fails_open() {
    assert!(!is_mountpoint(true, None, Some(2)));
    assert!(!is_mountpoint(true, Some(1), None));
    assert!(!is_mountpoint(true, None, None));
}

#[test]
fn remove_symlinks_takes_precedence_over_enter_symlinks() {
    let mut o = base_opts(&["/", "tmp", "victim"]);
    o.remove_symlinks = true;
    o.enter_symlinks = true;
    let mut f = plain_facts("lnk", &["/", "tmp", "victim", "lnk"]);
    f.is_symlink = true;
    assert_eq!(decide(&f, &o), Decision::RemoveLink);
}

#[test]
fn symlink_removal_ignores_other_guards() {
    // Even a hidden link outside the starting directory is removed itself
    // when link removal is requested: the symlink rule comes first.
    let mut o = base_opts(&["/", "tmp", "victim"]);
    o.remove_symlinks = true;
    let mut f = plain_facts(".escape", &["/", "etc"]);
    f.is_symlink = true;
    assert_eq!(decide(&f, &o), Decision::RemoveLink);
}

#[test]
fn symlink_neither_removed_nor_entered_is_skipped() {
    let o = base_opts(&["/", "tmp", "victim"]);
    let mut f = plain_facts("lnk", &["/", "tmp", "victim", "lnk"]);
    f.is_symlink = true;
    assert_eq!(decide(&f, &o), Decision::SkipSymlink);
}

#[test]
fn entered_symlink_falls_through_to_later_checks() {
    let mut o = base_opts(&["/", "tmp", "victim"]);
    o.enter_symlinks = true;
    let mut f = plain_facts("lnk", &["/", "tmp", "victim", "lnk"]);
    f.is_symlink = true;
    assert_eq!(decide(&f, &o), Decision::Remove);
}

#[test]
fn path_outside_start_is_skipped() {
    let o = base_opts(&["/", "tmp", "victim"]);
    let f = plain_facts("passwd", &["/", "etc", "passwd"]);
    assert_eq!(decide(&f, &o), Decision::SkipAboveRoot);
}

#[test]
fn unresolvable_path_counts_as_above_start() {
    let o = base_opts(&["/", "tmp", "victim"]);
    let mut f = plain_facts("broken", &[]);
    f.canonical = None;
    assert_eq!(decide(&f, &o), Decision::SkipAboveRoot);
}

#[test]
fn allow_above_start_skips_the_boundary_check() {
    let mut o = base_opts(&["/", "tmp", "victim"]);
    o.allow_delete_above_start = true;
    let f = plain_facts("passwd", &["/", "etc", "passwd"]);
    assert_eq!(decide(&f, &o), Decision::Remove);
}

#[test]
fn hidden_entry_is_skipped() {
    let o = base_opts(&["/", "tmp", "victim"]);
    let f = plain_facts(".secret", &["/", "tmp", "victim", ".secret"]);
    assert_eq!(decide(&f, &o), Decision::SkipHidden);
}

#[test]
fn allow_hidden_bypasses_the_hidden_check_only() {
    let mut o = base_opts(&["/", "tmp", "victim"]);
    o.allow_hidden_files = true;
    let f = plain_facts(".secret", &["/", "tmp", "victim", ".secret"]);
    assert_eq!(decide(&f, &o), Decision::Remove);
    // The other checks still apply: a hidden entry outside the start stays
    // skipped as above the root.
    let outside = plain_facts(".secret", &["/", "etc", ".secret"]);
    assert_eq!(decide(&outside, &o), Decision::SkipAboveRoot);
}

#[test]
fn mount_point_is_skipped_without_umount() {
    let o = base_opts(&["/", "tmp", "victim"]);
    let mut f = plain_facts("disk", &["/", "tmp", "victim", "disk"]);
    f.dev = Some(2);
    assert_eq!(decide(&f, &o), Decision::SkipMountPoint);
}

#[test]
fn mount_point_is_unmounted_on_request() {
    let mut o = base_opts(&["/", "tmp", "victim"]);
    o.umount = true;
    let mut f = plain_facts("disk", &["/", "tmp", "victim", "disk"]);
    f.dev = Some(2);
    assert_eq!(decide(&f, &o), Decision::Unmount);
}

#[test]
fn directory_without_recursive_is_skipped() {
    let o = base_opts(&["/", "tmp", "victim"]);
    let mut f = plain_facts("sub", &["/", "tmp", "victim", "sub"]);
    f.is_dir = true;
    assert_eq!(decide(&f, &o), Decision::SkipDir);
}

#[test]
fn directory_with_recursive_is_walked() {
    let mut o = base_opts(&["/", "tmp", "victim"]);
    o.recursive = true;
    let mut f = plain_facts("sub", &["/", "tmp", "victim", "sub"]);
    f.is_dir = true;
    assert_eq!(decide(&f, &o), Decision::Recurse);
}

#[test]
fn plain_file_is_removed() {
    let o = base_opts(&["/", "tmp", "victim"]);
    let f = plain_facts("a.txt", &["/", "tmp", "victim", "a.txt"]);
    assert_eq!(decide(&f, &o), Decision::Remove);
}

fn victim_tree() -> Entry {
    dir(
        "victim",
        1,
        &["/", "tmp", "victim"],
        vec![
            file("a.txt", 1, &["/", "tmp", "victim", "a.txt"]),
            file(".secret", 1, &["/", "tmp", "victim", ".secret"]),
            dir(
                "sub",
                1,
                &["/", "tmp", "victim", "sub"],
                vec![file("b.txt", 1, &["/", "tmp", "victim", "sub", "b.txt"])],
            ),
        ],
    )
}

#[test]
fn dry_run_walk_of_victim_tree() {
    let mut o = base_opts(&["/", "tmp", "victim"]);
    o.recursive = true;
    let reports = delete(&victim_tree(), &comps(&["/", "tmp"]), true, Some(1), &o);
    assert_eq!(
        outcomes(&reports),
        vec![
            Outcome::Deleted,       // a.txt
            Outcome::SkippedHidden, // .secret
            Outcome::Deleted,       // sub/b.txt, before its directory
            Outcome::Deleted,       // sub, after its child
            Outcome::Deleted,       // victim itself, last
        ]
    );
    assert_eq!(reports[0].path, comps(&["/", "tmp", "victim", "a.txt"]));
    assert_eq!(reports[1].path, comps(&["/", "tmp", "victim", ".secret"]));
    assert_eq!(reports[2].path, comps(&["/", "tmp", "victim", "sub", "b.txt"]));
    assert_eq!(reports[3].path, comps(&["/", "tmp", "victim", "sub"]));
    assert_eq!(reports[4].path, comps(&["/", "tmp", "victim"]));
}

#[test]
fn dry_run_twice_is_identical() {
    let mut o = base_opts(&["/", "tmp", "victim"]);
    o.recursive = true;
    let first = delete(&victim_tree(), &comps(&["/", "tmp"]), true, Some(1), &o);
    let second = delete(&victim_tree(), &comps(&["/", "tmp"]), true, Some(1), &o);
    assert_eq!(first, second);
}

#[test]
fn mounted_subdirectory_is_skipped_whole() {
    // `/tmp/victim/sub` sits on its own device: it is skipped as a mount
    // point and its contents are never enumerated.
    let mut o = base_opts(&["/", "tmp", "victim"]);
    o.recursive = true;
    o.allow_hidden_files = true;
    let tree = dir(
        "victim",
        1,
        &["/", "tmp", "victim"],
        vec![
            file("a.txt", 1, &["/", "tmp", "victim", "a.txt"]),
            dir(
                "sub",
                2,
                &["/", "tmp", "victim", "sub"],
                vec![file("c.txt", 2, &["/", "tmp", "victim", "sub", "c.txt"])],
            ),
        ],
    );
    let reports = delete(&tree, &comps(&["/", "tmp"]), true, Some(1), &o);
    assert_eq!(
        outcomes(&reports),
        vec![Outcome::Deleted, Outcome::SkippedMountPoint, Outcome::Deleted]
    );
    assert_eq!(reports[1].path, comps(&["/", "tmp", "victim", "sub"]));
    // No report mentions anything under `sub`.
    assert!(reports.iter().all(|r| r.path.len() <= 4));
}

#[test]
fn mounted_subdirectory_is_unmounted_on_request() {
    // Same tree, but with unmounting requested: the mount point's outcome is
    // `Unmounted`, nothing under it is enumerated, and the point itself is
    // not deleted.
    let mut o = base_opts(&["/", "tmp", "victim"]);
    o.recursive = true;
    o.umount = true;
    o.allow_hidden_files = true;
    let tree = dir(
        "victim",
        1,
        &["/", "tmp", "victim"],
        vec![dir(
            "sub",
            2,
            &["/", "tmp", "victim", "sub"],
            vec![file("c.txt", 2, &["/", "tmp", "victim", "sub", "c.txt"])],
        )],
    );
    let reports = delete(&tree, &comps(&["/", "tmp"]), true, Some(1), &o);
    assert_eq!(outcomes(&reports), vec![Outcome::Unmounted, Outcome::Deleted]);
    assert_eq!(reports[0].path, comps(&["/", "tmp", "victim", "sub"]));
}

#[test]
fn symlink_to_etc_is_never_followed() {
    let mut o = base_opts(&["/", "tmp", "victim"]);
    o.recursive = true;
    o.allow_hidden_files = true;
    let tree = dir(
        "victim",
        1,
        &["/", "tmp", "victim"],
        vec![
            link("escape", 1, &["/", "etc"]),
            file("a.txt", 1, &["/", "tmp", "victim", "a.txt"]),
        ],
    );
    let reports = delete(&tree, &comps(&["/", "tmp"]), true, Some(1), &o);
    assert_eq!(
        outcomes(&reports),
        vec![Outcome::SkippedSymlink, Outcome::Deleted, Outcome::Deleted]
    );
    assert_eq!(reports[0].path, comps(&["/", "tmp", "victim", "escape"]));
}

#[test]
fn tree_outside_start_is_skipped_unentered() {
    let mut o = base_opts(&["/", "home", "safe"]);
    o.recursive = true;
    let reports = delete(&victim_tree(), &comps(&["/", "tmp"]), true, Some(1), &o);
    assert_eq!(outcomes(&reports), vec![Outcome::SkippedAboveRoot]);
    assert_eq!(reports[0].path, comps(&["/", "tmp", "victim"]));
}

#[test]
fn non_recursive_walk_never_enters_a_directory() {
    let o = base_opts(&["/", "tmp", "victim"]);
    let reports = delete(&victim_tree(), &comps(&["/", "tmp"]), true, Some(1), &o);
    assert_eq!(outcomes(&reports), vec![Outcome::SkippedNotRecursiveDirectory]);
}

#[test]
fn filesystem_root_is_a_mount_point_for_the_walk() {
    let mut o = base_opts(&["/"]);
    o.recursive = true;
    let root = Entry {
        name: "/".to_string(),
        is_symlink: false,
        is_dir: true,
        dev: Some(1),
        canonical: Some(comps(&["/"])),
        children: Vec::new(),
    };
    let reports = delete(&root, &comps(&[]), false, None, &o);
    assert_eq!(outcomes(&reports), vec![Outcome::SkippedMountPoint]);
}
