//! Allow-lists: the descriptors granted in one category.

use vstd::prelude::*;

verus! {

/// A unit of access that can stand in an allow-list. Two descriptors are the
/// same if and only if their views are equal.
pub trait Descriptor: View + Sized {
    fn same(&self, other: &Self) -> (same: bool)
        ensures
            same == (self@ == other@),
    ;
}

/// The views of a sequence of values.
pub open spec fn views<D: View>(items: Seq<D>) -> Seq<D::V> {
    items.map_values(|item: D| item@)
}

/// The grant of one category: a set of descriptors, held in the order in
/// which they were first granted. The empty set grants nothing, and no value
/// of this type grants everything.
pub struct CategoryGrant<D: Descriptor> {
    items: Vec<D>,
}

impl<D: Descriptor> View for CategoryGrant<D> {
    type V = Seq<D::V>;

    closed spec fn view(&self) -> Seq<D::V> {
        views(self.items@)
    }
}

impl<D: Descriptor> CategoryGrant<D> {
    #[verifier::type_invariant]
    spec fn no_descriptor_twice(&self) -> bool {
        views(self.items@).no_duplicates()
    }

    /// The set that grants nothing.
    pub fn new() -> (set: Self)
        ensures
            set@ == Seq::<D::V>::empty(),
    {
        let set = CategoryGrant { items: Vec::new() };
        assert(set@ =~= Seq::<D::V>::empty());
        set
    }

    /// The number of descriptors, none of which is counted twice.
    pub fn len(&self) -> (count: usize)
        ensures
            count == self@.len(),
            self@.no_duplicates(),
            count == self@.to_set().len(),
    {
        proof {
            use_type_invariant(self);
            self@.unique_seq_to_set();
        }
        self.items.len()
    }

    /// Whether nothing is granted.
    pub fn is_empty(&self) -> (empty: bool)
        ensures
            empty == (self@.len() == 0),
    {
        self.items.len() == 0
    }

    /// The descriptor at a place in the order of granting, if the place is
    /// taken.
    pub fn get(&self, index: usize) -> (descriptor: Option<&D>)
        ensures
            match descriptor {
                Some(descriptor) => index < self@.len() && descriptor@ == self@[index as int],
                None => index >= self@.len(),
            },
    {
        if index < self.items.len() {
            Some(&self.items[index])
        } else {
            None
        }
    }

    /// Whether the descriptor is granted.
    pub fn contains(&self, descriptor: &D) -> (granted: bool)
        ensures
            granted == self@.contains(descriptor@),
    {
        let mut at: usize = 0;
        while at < self.items.len()
            invariant
                at <= self.items.len(),
                forall|i: int| 0 <= i < at ==> self@[i] != descriptor@,
            decreases self.items.len() - at,
        {
            if self.items[at].same(descriptor) {
                assert(self@[at as int] == descriptor@);
                return true;
            }
            at += 1;
        }
        false
    }

    /// Grants the descriptor, unless it is granted already. Says whether the
    /// set has grown.
    pub fn insert(&mut self, descriptor: D) -> (added: bool)
        ensures
            added == !old(self)@.contains(descriptor@),
            final(self)@ == if added {
                old(self)@.push(descriptor@)
            } else {
                old(self)@
            },
    {
        if self.contains(&descriptor) {
            false
        } else {
            proof {
                use_type_invariant(&*self);
            }
            let ghost before = self.items@;
            let mut items: Vec<D> = Vec::new();
            assert(views(items@) =~= Seq::<D::V>::empty());
            std::mem::swap(&mut self.items, &mut items);
            items.push(descriptor);
            assert(views(items@) =~= views(before).push(descriptor@));
            std::mem::swap(&mut self.items, &mut items);
            true
        }
    }

    /// The descriptors as the list that a sandbox takes: `None` where nothing
    /// is granted, and never an empty list, which a sandbox may read as a
    /// grant of everything.
    pub fn into_allow_list(self) -> (list: Option<Vec<D>>)
        ensures
            match list {
                None => self@.len() == 0,
                Some(granted) => granted.len() > 0 && views(granted@) == self@,
            },
    {
        if self.items.len() == 0 {
            None
        } else {
            Some(self.items)
        }
    }
}

} // verus!
