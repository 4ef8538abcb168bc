//! Path predicates: the hidden-entry test on a single name, and the
//! component-wise prefix test that decides whether a canonical path lies
//! within the starting directory.

use vstd::prelude::*;

verus! {

/// A name marks a hidden entry when it begins with the hidden-file marker,
/// a leading dot.
pub open spec fn spec_is_hidden_name(name: Seq<char>) -> bool {
    name.len() > 0 && name[0] == '.'
}

/// Tests whether a single path component names a hidden entry.
pub fn is_hidden_name(name: &str) -> (r: bool)
    ensures
        r == spec_is_hidden_name(name@),
{
    if name.unicode_len() == 0 {
        false
    } else {
        name.get_char(0) == '.'
    }
}

/// Copies a path given as components.
pub fn clone_path(v: &Vec<String>) -> (r: Vec<String>)
    ensures
        r@ == v@,
{
    let mut r: Vec<String> = Vec::new();
    let mut i: usize = 0;
    while i < v.len()
        invariant
            0 <= i <= v.len(),
            r@ == v@.take(i as int),
        decreases v.len() - i,
    {
        r.push(v[i].clone());
        proof {
            assert(v@.take(i as int).push(v@[i as int]) =~= v@.take(i + 1));
        }
        i = i + 1;
    }
    proof {
        assert(v@.take(v@.len() as int) =~= v@);
    }
    r
}

/// Tests whether `root` is a component-wise prefix of `path`: the test that
/// decides whether a canonical path lies within the starting directory.
pub fn is_component_prefix(root: &Vec<String>, path: &Vec<String>) -> (r: bool)
    ensures
        r == root.deep_view().is_prefix_of(path.deep_view()),
{
    if root.len() > path.len() {
        return false;
    }
    let mut i: usize = 0;
    while i < root.len()
        invariant
            0 <= i <= root.len(),
            root.len() <= path.len(),
            root@.len() == root.deep_view().len(),
            path@.len() == path.deep_view().len(),
            forall|j: int| 0 <= j < i ==> root.deep_view()[j] == path.deep_view()[j],
        decreases root.len() - i,
    {
        if !(root[i] == path[i]) {
            assert(root.deep_view()[i as int] != path.deep_view()[i as int]);
            assert(!root.deep_view().is_prefix_of(path.deep_view()));
            return false;
        }
        i = i + 1;
    }
    assert(root.deep_view() =~= path.deep_view().subrange(0, root.deep_view().len() as int));
    true
}

} // verus!
