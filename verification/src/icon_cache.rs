//! The render cache of the shell: one cache cell for each drawing surface,
//! found by the surface's identity.

use vstd::prelude::*;
use crate::cache::{SmartCache, SmartCacheView};
use crate::icons::{lemma_icon_state_eq, FrostwinIcons, Icon, IconKey, IconState};

verus! {

struct IconCell<A> {
    key: FrostwinIcons,
    cell: SmartCache<IconState, A>,
}

/// The cells of the render cache, by the identity of the surface. `A` is the
/// kind of artifact that a draw produces.
pub struct IconCache<A> {
    cells: Vec<IconCell<A>>,
}

/// The cell that `cells` holds for `key`, or an empty one if it holds none.
pub open spec fn cell_of<A>(
    cells: Map<IconKey, SmartCacheView<IconState, A>>,
    key: IconKey,
) -> SmartCacheView<IconState, A> {
    if cells.contains_key(key) {
        cells[key]
    } else {
        SmartCacheView::empty()
    }
}

impl<A> View for IconCache<A> {
    type V = Map<IconKey, SmartCacheView<IconState, A>>;

    closed spec fn view(&self) -> Map<IconKey, SmartCacheView<IconState, A>> {
        Map::new(
            |key: IconKey| self.holds(key),
            |key: IconKey| self.cells@[self.index_of(key)].cell@,
        )
    }
}

impl<A> IconCache<A> {
    spec fn is_first(self, key: IconKey, i: int) -> bool {
        &&& 0 <= i < self.cells@.len()
        &&& self.cells@[i].key@ == key
        &&& forall|j: int| 0 <= j < i ==> self.cells@[j].key@ != key
    }

    spec fn holds(self, key: IconKey) -> bool {
        exists|i: int| self.is_first(key, i)
    }

    spec fn index_of(self, key: IconKey) -> int {
        choose|i: int| self.is_first(key, i)
    }

    proof fn lemma_first(self, key: IconKey, i: int)
        requires
            self.is_first(key, i),
        ensures
            self.holds(key),
            self.index_of(key) == i,
            self@.contains_key(key),
            self@[key] == self.cells@[i].cell@,
    {
        let j = self.index_of(key);
        assert(self.is_first(key, j));
    }

    /// A cache without cells.
    pub fn new() -> (cache: Self)
        ensures
            cache@ == Map::<IconKey, SmartCacheView<IconState, A>>::empty(),
    {
        let cache = IconCache { cells: Vec::new() };
        assert(cache@ =~= Map::<IconKey, SmartCacheView<IconState, A>>::empty());
        cache
    }

    fn position(&self, key: &FrostwinIcons) -> (found: Option<usize>)
        ensures
            match found {
                Some(i) => self.is_first(key@, i as int),
                None => forall|j: int| 0 <= j < self.cells@.len() ==> self.cells@[j].key@ != key@,
            },
    {
        let mut i: usize = 0;
        while i < self.cells.len()
            invariant
                0 <= i <= self.cells@.len(),
                forall|j: int| 0 <= j < i ==> self.cells@[j].key@ != key@,
            decreases self.cells@.len() - i,
        {
            if self.cells[i].key == *key {
                return Some(i);
            }
            i = i + 1;
        }
        None
    }

    /// The place of the cell for `key`, which is made if there is none.
    fn place(&mut self, key: FrostwinIcons) -> (at: usize)
        ensures
            final(self).is_first(key@, at as int),
            final(self)@ == old(self)@.insert(key@, cell_of(old(self)@, key@)),
    {
        match self.position(&key) {
            Some(at) => {
                proof {
                    self.lemma_first(key@, at as int);
                    assert(self@ =~= old(self)@.insert(key@, cell_of(old(self)@, key@)));
                }
                at
            },
            None => {
                let ghost before = *self;
                let ghost added = key@;
                self.cells.push(IconCell { key, cell: SmartCache::new() });
                proof {
                    let last = before.cells@.len() as int;
                    assert(!before.holds(added)) by {
                        if before.holds(added) {
                            let i = before.index_of(added);
                            assert(before.is_first(added, i));
                        }
                    }
                    assert(self.is_first(added, last));
                    self.lemma_first(added, last);
                    assert forall|k: IconKey| k != added implies (#[trigger] self.holds(k)
                        <==> before.holds(k)) && (before.holds(k) ==> self@[k] == before@[k]) by {
                        if before.holds(k) {
                            let i = before.index_of(k);
                            assert(before.is_first(k, i));
                            assert(self.is_first(k, i));
                            self.lemma_first(k, i);
                            before.lemma_first(k, i);
                        }
                        if self.holds(k) {
                            let i = self.index_of(k);
                            assert(self.is_first(k, i));
                            assert(self.cells@[last].key@ == added);
                            assert(i < last);
                            assert(before.cells@[i] == self.cells@[i]);
                            assert forall|j: int| 0 <= j < i implies before.cells@[j].key@
                                != k by {
                                assert(before.cells@[j] == self.cells@[j]);
                            }
                            assert(before.is_first(k, i));
                        }
                    }
                    assert(self@ =~= before@.insert(added, SmartCacheView::empty()));
                }
                self.cells.len() - 1
            },
        }
    }

    proof fn lemma_cell_changed(before: Self, after: Self, key: IconKey, at: int)
        requires
            before.is_first(key, at),
            after.cells@.len() == before.cells@.len(),
            forall|i: int|
                0 <= i < before.cells@.len() ==> after.cells@[i].key == before.cells@[i].key,
            forall|i: int|
                0 <= i < before.cells@.len() && i != at ==> after.cells@[i] == before.cells@[i],
        ensures
            after@ == before@.insert(key, after.cells@[at].cell@),
    {
        assert(after.is_first(key, at));
        after.lemma_first(key, at);
        assert forall|k: IconKey| k != key implies (#[trigger] after.holds(k) <==> before.holds(k))
            && (before.holds(k) ==> after@[k] == before@[k]) by {
            if before.holds(k) {
                let i = before.index_of(k);
                assert(before.is_first(k, i));
                assert(after.is_first(k, i));
                after.lemma_first(k, i);
                before.lemma_first(k, i);
            }
            if after.holds(k) {
                let i = after.index_of(k);
                assert(after.is_first(k, i));
                assert(before.is_first(k, i));
            }
        }
        before.lemma_first(key, at);
        assert(after@ =~= before@.insert(key, after.cells@[at].cell@));
    }

    /// Asks the cell of the icon's surface for the drawing that belongs to
    /// the icon's state. The drawing is handed out when the surface was last
    /// drawn in this state; `None` tells the caller to draw and to
    /// [`store`](Self::store) the drawing.
    pub fn draw<I: Icon>(&mut self, icon: &I) -> (cached: Option<&A>)
        ensures
            final(self)@ == old(self)@.insert(
                icon.spec_identity(),
                cell_of(old(self)@, icon.spec_identity()).asked(icon.spec_state()),
            ),
            match cached {
                Some(artifact) => final(self)@[icon.spec_identity()].artifact == Some(*artifact),
                None => final(self)@[icon.spec_identity()].artifact is None,
            },
    {
        let key = icon.identity();
        let state = icon.state();
        let at = self.place(key);
        let ghost placed = *self;
        proof {
            placed.lemma_first(icon.spec_identity(), at as int);
            lemma_icon_state_eq();
        }
        self.cells[at].cell.get(state);
        proof {
            Self::lemma_cell_changed(placed, *self, icon.spec_identity(), at as int);
        }
        self.cells[at].cell.artifact()
    }

    /// Stores the drawing made for the icon's surface in its cell.
    pub fn store<I: Icon>(&mut self, icon: &I, artifact: A)
        ensures
            final(self)@ == old(self)@.insert(
                icon.spec_identity(),
                cell_of(old(self)@, icon.spec_identity()).filled(artifact),
            ),
    {
        let key = icon.identity();
        let at = self.place(key);
        let ghost placed = *self;
        proof {
            placed.lemma_first(icon.spec_identity(), at as int);
        }
        self.cells[at].cell.put(artifact);
        proof {
            Self::lemma_cell_changed(placed, *self, icon.spec_identity(), at as int);
        }
    }
}

} // verus!
