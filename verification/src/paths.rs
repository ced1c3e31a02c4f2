//! Paths as sequences of components.
//!
//! The library never touches the file system. It reasons about where a file
//! of the source tree belongs in its mirror, and for that a path is the
//! sequence of its components, outermost first: the root, where the path has
//! one, and then one name for each directory and for the file.
use vstd::prelude::*;
use vstd::string::*;

verus! {

/// A path, component by component.
#[derive(Debug)]
pub struct ComponentPath {
    pub components: Vec<String>,
}

/// The components that `v` holds, each as its characters.
pub open spec fn names(v: Seq<String>) -> Seq<Seq<char>> {
    v.map_values(|s: String| s@)
}

impl View for ComponentPath {
    type V = Seq<Seq<char>>;

    open spec fn view(&self) -> Seq<Seq<char>> {
        names(self.components@)
    }
}

/// `path` lies in the directory `base` or below it, or is `base` itself.
pub open spec fn is_under(path: Seq<Seq<char>>, base: Seq<Seq<char>>) -> bool {
    base.len() <= path.len() && path.subrange(0, base.len() as int) == base
}

/// `path` lies in the directory `base` or below it, and is not `base` itself.
pub open spec fn is_strictly_under(path: Seq<Seq<char>>, base: Seq<Seq<char>>) -> bool {
    base.len() < path.len() && path.subrange(0, base.len() as int) == base
}

/// What is left of `path` when the directory `base`, under which it lies,
/// is taken away from its front.
pub open spec fn relative_to(path: Seq<Seq<char>>, base: Seq<Seq<char>>) -> Seq<Seq<char>> {
    path.subrange(base.len() as int, path.len() as int)
}

impl ComponentPath {
    /// The path without components.
    pub fn new() -> (r: Self)
        ensures
            r@ == Seq::<Seq<char>>::empty(),
    {
        let r = ComponentPath { components: Vec::new() };
        assert(r@ =~= Seq::<Seq<char>>::empty());
        r
    }

    /// The path with the components `components`.
    pub fn from_components(components: Vec<String>) -> (r: Self)
        ensures
            r@ == names(components@),
    {
        ComponentPath { components }
    }

    /// The number of components.
    pub fn len(&self) -> (n: usize)
        ensures
            n == self@.len(),
    {
        self.components.len()
    }

    /// Whether the two paths have the same components.
    pub fn same_path(&self, other: &ComponentPath) -> (r: bool)
        ensures
            r == (self@ == other@),
    {
        if self.components.len() != other.components.len() {
            return false;
        }
        let r = self.starts_with(other);
        proof {
            assert(self@.subrange(0, self@.len() as int) =~= self@);
        }
        r
    }

    /// Whether this path lies under `base`, or is `base`.
    pub fn starts_with(&self, base: &ComponentPath) -> (r: bool)
        ensures
            r == is_under(self@, base@),
    {
        if base.components.len() > self.components.len() {
            return false;
        }
        let mut i: usize = 0;
        while i < base.components.len()
            invariant
                i <= base.components@.len() <= self.components@.len(),
                forall|j: int| 0 <= j < i ==> self@[j] == base@[j],
            decreases base.components@.len() - i,
        {
            if self.components[i] != base.components[i] {
                proof {
                    assert(self@.subrange(0, base@.len() as int)[i as int] == self@[i as int]);
                }
                return false;
            }
            i += 1;
        }
        proof {
            assert(self@.subrange(0, base@.len() as int) =~= base@);
        }
        true
    }

    /// What is left of this path when `base` is taken away from its front;
    /// `None` where this path does not lie under `base`.
    pub fn strip_prefix(&self, base: &ComponentPath) -> (r: Option<ComponentPath>)
        ensures
            match r {
                Some(rest) => is_under(self@, base@) && rest@ == relative_to(self@, base@),
                None => !is_under(self@, base@),
            },
    {
        if !self.starts_with(base) {
            return None;
        }
        let mut components: Vec<String> = Vec::new();
        let mut i: usize = base.components.len();
        proof {
            assert(names(components@) =~= self@.subrange(base@.len() as int, i as int));
        }
        while i < self.components.len()
            invariant
                base.components@.len() <= i <= self.components@.len(),
                names(components@) == self@.subrange(base@.len() as int, i as int),
            decreases self.components@.len() - i,
        {
            let c = self.components[i].clone();
            proof {
                assert(c@ == self@[i as int]);
                assert(names(components@.push(c)) =~= names(components@).push(c@));
                assert(self@.subrange(base@.len() as int, i as int).push(c@) =~= self@.subrange(
                    base@.len() as int,
                    i + 1,
                ));
            }
            components.push(c);
            i += 1;
        }
        Some(ComponentPath { components })
    }

    /// This path with the components of `relative` behind it.
    pub fn join(&self, relative: &ComponentPath) -> (r: ComponentPath)
        ensures
            r@ == self@ + relative@,
    {
        let mut joined = self.clone();
        let mut i: usize = 0;
        proof {
            assert(joined@ =~= self@ + relative@.subrange(0, 0));
        }
        while i < relative.components.len()
            invariant
                i <= relative.components@.len(),
                joined@ == self@ + relative@.subrange(0, i as int),
            decreases relative.components@.len() - i,
        {
            let c = relative.components[i].clone();
            proof {
                assert(c@ == relative@[i as int]);
                assert(names(joined.components@.push(c)) =~= names(joined.components@).push(c@));
                assert((self@ + relative@.subrange(0, i as int)).push(c@) =~= self@
                    + relative@.subrange(0, i + 1));
            }
            joined.components.push(c);
            i += 1;
        }
        proof {
            assert(relative@.subrange(0, relative@.len() as int) =~= relative@);
        }
        joined
    }

    /// The directory that holds this path: the path without its last
    /// component. The path without components has none.
    pub fn parent(&self) -> (r: Option<ComponentPath>)
        ensures
            match r {
                Some(dir) => self@.len() > 0 && dir@ == self@.drop_last(),
                None => self@.len() == 0,
            },
    {
        if self.components.len() == 0 {
            return None;
        }
        let mut dir = self.clone();
        dir.components.pop();
        proof {
            assert(dir@ =~= self@.drop_last());
        }
        Some(dir)
    }
}

impl Clone for ComponentPath {
    fn clone(&self) -> (r: Self)
        ensures
            r@ == self@,
    {
        let mut components: Vec<String> = Vec::new();
        let mut i: usize = 0;
        while i < self.components.len()
            invariant
                i <= self.components@.len(),
                names(components@) == self@.subrange(0, i as int),
            decreases self.components@.len() - i,
        {
            let c = self.components[i].clone();
            proof {
                assert(c@ == self@[i as int]);
                assert(names(components@.push(c)) =~= names(components@).push(c@));
                assert(self@.subrange(0, i as int).push(c@) =~= self@.subrange(0, i + 1));
            }
            components.push(c);
            i += 1;
        }
        proof {
            assert(self@.subrange(0, self@.len() as int) =~= self@);
        }
        ComponentPath { components }
    }
}

} // verus!
