//! A set of paths, kept in a hash set with the Fx hasher.
use rustc_hash::{FxBuildHasher, FxHashSet};
use vstd::prelude::*;

verus! {

/// The builder of Fx hashers, of which nothing is known here.
#[verifier::external_type_specification]
#[verifier::external_body]
pub struct ExFxBuildHasher(FxBuildHasher);

/// The paths that a hash set holds, each as its characters.
pub uninterp spec fn paths_in(set: FxHashSet<String>) -> Set<Seq<char>>;

/// `FxHashSet::default` makes a set that holds nothing.
#[verifier::external_body]
fn empty_set() -> (set: FxHashSet<String>)
    ensures
        paths_in(set) == Set::<Seq<char>>::empty(),
{
    FxHashSet::default()
}

/// `FxHashSet::contains` says whether the set holds a string equal to `path`.
#[verifier::external_body]
fn set_contains(set: &FxHashSet<String>, path: &str) -> (found: bool)
    ensures
        found == paths_in(*set).contains(path@),
{
    set.contains(path)
}

/// `FxHashSet::insert` adds `path` to the set and says whether the set did not
/// hold it before.
#[verifier::external_body]
fn set_insert(set: &mut FxHashSet<String>, path: String) -> (added: bool)
    ensures
        paths_in(*final(set)) == paths_in(*old(set)).insert(path@),
        added == !paths_in(*old(set)).contains(path@),
{
    set.insert(path)
}

/// `FxHashSet::iter` visits each string of the set once, in no particular
/// order.
#[verifier::external_body]
fn set_items(set: &FxHashSet<String>) -> (items: Vec<String>)
    ensures
        forall|i: int| 0 <= i < items@.len() ==> paths_in(*set).contains(#[trigger] items@[i]@),
        forall|path: Seq<char>|
            paths_in(*set).contains(path) ==> exists|i: int|
                0 <= i < items@.len() && #[trigger] items@[i]@ == path,
        forall|i: int, j: int|
            0 <= i < j < items@.len() ==> #[trigger] items@[i]@ != #[trigger] items@[j]@,
{
    set.iter().cloned().collect()
}

/// A set of paths.
pub struct PathSet {
    set: FxHashSet<String>,
}

impl View for PathSet {
    /// The paths in the set, each as its characters.
    type V = Set<Seq<char>>;

    closed spec fn view(&self) -> Set<Seq<char>> {
        paths_in(self.set)
    }
}

impl PathSet {
    /// The empty set.
    pub fn new() -> (set: PathSet)
        ensures
            set@ == Set::<Seq<char>>::empty(),
    {
        PathSet { set: empty_set() }
    }

    /// Whether the set holds `path`.
    pub fn contains(&self, path: &str) -> (found: bool)
        ensures
            found == self@.contains(path@),
    {
        set_contains(&self.set, path)
    }

    /// Adds `path` and says whether it was new.
    pub fn insert(&mut self, path: &str) -> (added: bool)
        ensures
            final(self)@ == old(self)@.insert(path@),
            added == !old(self)@.contains(path@),
    {
        set_insert(&mut self.set, path.to_owned())
    }

    /// The paths of the set, each once, in no particular order.
    pub fn paths(&self) -> (paths: Vec<String>)
        ensures
            forall|i: int| 0 <= i < paths@.len() ==> self@.contains(#[trigger] paths@[i]@),
            forall|path: Seq<char>|
                self@.contains(path) ==> exists|i: int|
                    0 <= i < paths@.len() && #[trigger] paths@[i]@ == path,
            forall|i: int, j: int|
                0 <= i < j < paths@.len() ==> #[trigger] paths@[i]@ != #[trigger] paths@[j]@,
    {
        set_items(&self.set)
    }
}

} // verus!
