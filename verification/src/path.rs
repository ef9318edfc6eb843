//! Locations in the tree of a generated project.
//!
//! A location is kept as the project root, exactly as the caller gave it, and
//! the names to descend through below it. Turning that into a path of the
//! platform is left to whoever touches the file system.

use vstd::prelude::*;
use vstd::string::*;

verus! {

/// A directory or file of the project: the root and the names below it.
#[derive(Debug, PartialEq, Eq)]
pub struct ProjectPath {
    /// The project root, as given.
    pub root: String,
    /// The names leading from the root to the location, outermost first.
    pub components: Vec<String>,
}

/// A location as mathematical sequences.
#[verifier::ext_equal]
pub struct PathView {
    pub root: Seq<char>,
    pub components: Seq<Seq<char>>,
}

impl PathView {
    /// The root itself.
    pub open spec fn at_root(root: Seq<char>) -> PathView {
        PathView { root, components: Seq::empty() }
    }

    /// The directory that holds this location.
    pub open spec fn parent(self) -> PathView {
        PathView { root: self.root, components: self.components.drop_last() }
    }

    /// The location one name further down.
    pub open spec fn join(self, component: Seq<char>) -> PathView {
        PathView { root: self.root, components: self.components.push(component) }
    }
}

/// The words of a list, each as a sequence of characters.
pub open spec fn words(list: Seq<String>) -> Seq<Seq<char>> {
    list.map_values(|word: String| word@)
}

impl View for ProjectPath {
    type V = PathView;

    open spec fn view(&self) -> PathView {
        PathView { root: self.root@, components: words(self.components@) }
    }
}

impl Clone for ProjectPath {
    fn clone(&self) -> (path: ProjectPath)
        ensures
            path@ == self@,
    {
        let path = ProjectPath {
            root: self.root.clone(),
            components: clone_words(&self.components),
        };
        assert(path@ =~= self@);
        path
    }
}

/// A copy of a list of words.
fn clone_words(list: &Vec<String>) -> (copy: Vec<String>)
    ensures
        words(copy@) == words(list@),
{
    let mut copy: Vec<String> = Vec::new();
    let mut i: usize = 0;
    while i < list.len()
        invariant
            i <= list.len(),
            copy.len() == i,
            forall|j: int| 0 <= j < i ==> (#[trigger] copy@[j])@ == list@[j]@,
        decreases list.len() - i,
    {
        copy.push(list[i].clone());
        i += 1;
    }
    assert(words(copy@) =~= words(list@));
    copy
}

impl ProjectPath {
    /// The project root.
    pub fn new(root: &str) -> (path: ProjectPath)
        ensures
            path@ == PathView::at_root(root@),
    {
        let path = ProjectPath { root: String::from_str(root), components: Vec::new() };
        assert(path@ =~= PathView::at_root(root@));
        path
    }

    /// The location named `component` directly below this one.
    pub fn join(&self, component: &str) -> (path: ProjectPath)
        ensures
            path@ == self@.join(component@),
    {
        let mut components = clone_words(&self.components);
        components.push(String::from_str(component));
        let path = ProjectPath { root: self.root.clone(), components };
        assert(path@ =~= self@.join(component@));
        path
    }
}

} // verus!
