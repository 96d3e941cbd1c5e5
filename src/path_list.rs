//! An ordered set of paths: insertion order is kept and no entry appears twice.

use vstd::prelude::*;

use crate::codec::SassPath;

verus! {

/// The views of a sequence of paths.
pub open spec fn path_views(v: Seq<SassPath>) -> Seq<Seq<u8>> {
    v.map_values(|p: SassPath| p@)
}

/// An ordered set after pushing `p`: unchanged where `p` is already there,
/// else `p` comes last.
pub open spec fn pushed(list: Seq<Seq<u8>>, p: Seq<u8>) -> Seq<Seq<u8>> {
    if list.contains(p) {
        list
    } else {
        list.push(p)
    }
}

/// Paths in insertion order, each at most once.
#[derive(Debug)]
pub struct PathList {
    items: Vec<SassPath>,
}

impl PathList {
    #[verifier::type_invariant]
    spec fn unique(self) -> bool {
        path_views(self.items@).no_duplicates()
    }
}

impl View for PathList {
    type V = Seq<Seq<u8>>;

    closed spec fn view(&self) -> Seq<Seq<u8>> {
        path_views(self.items@)
    }
}

impl PathList {
    /// The list with no entry.
    pub fn new() -> (r: PathList)
        ensures
            r@ == Seq::<Seq<u8>>::empty(),
    {
        let r = PathList { items: Vec::new() };
        assert(r@ =~= Seq::<Seq<u8>>::empty());
        r
    }

    /// The number of entries.
    pub fn len(&self) -> (r: usize)
        ensures
            r == self@.len(),
    {
        self.items.len()
    }

    /// The entry at `i`, borrowed from the list.
    pub fn get(&self, i: usize) -> (r: &SassPath)
        requires
            i < self@.len(),
        ensures
            r@ == self@[i as int],
    {
        &self.items[i]
    }

    /// Whether an entry holds the same bytes as `path`.
    pub fn contains(&self, path: &SassPath) -> (r: bool)
        ensures
            r == self@.contains(path@),
    {
        let ghost views = self@;
        let mut i: usize = 0;
        while i < self.items.len()
            invariant
                views == path_views(self.items@),
                i <= self.items@.len(),
                forall|k: int| 0 <= k < i ==> views[k] != path@,
            decreases self.items@.len() - i,
        {
            if self.items[i].same_as(path) {
                assert(views[i as int] == path@);
                return true;
            }
            i += 1;
        }
        false
    }

    /// Appends `path` unless an entry with the same bytes is there.
    pub fn push_unique(&mut self, path: SassPath)
        ensures
            final(self)@ == pushed(old(self)@, path@),
            final(self)@.no_duplicates(),
    {
        proof {
            use_type_invariant(&*self);
        }
        if self.contains(&path) {
            return;
        }
        let mut taken = PathList::new();
        core::mem::swap(self, &mut taken);
        proof {
            use_type_invariant(&taken);
        }
        let PathList { mut items } = taken;
        let ghost before = path_views(items@);
        items.push(path);
        assert(path_views(items@) =~= before.push(path@));
        *self = PathList { items };
    }

    /// A copy whose entries share no storage with `self`.
    pub fn copy(&self) -> (r: PathList)
        ensures
            r@ == self@,
    {
        proof {
            use_type_invariant(self);
        }
        let mut items: Vec<SassPath> = Vec::new();
        let mut i: usize = 0;
        while i < self.items.len()
            invariant
                i <= self.items@.len(),
                items@.len() == i,
                forall|k: int| 0 <= k < i ==> #[trigger] items@[k]@ == self.items@[k]@,
            decreases self.items@.len() - i,
        {
            items.push(self.items[i].duplicate());
            i += 1;
        }
        assert(path_views(items@) =~= path_views(self.items@));
        PathList { items }
    }
}

} // verus!
