//! The environment: one mutable mapping from variable name to integer value,
//! threaded by exclusive mutable reference through a whole evaluation.
//!
//! Viewed abstractly it is a `Map<Seq<char>, i32>`.  Concretely it is a list
//! of bindings in insertion order; a later binding for the same name wins, so
//! inserting never removes anything and a lookup scans from the newest
//! binding backwards.

use vstd::prelude::*;

verus! {

/// The abstract contents of a binding list: each entry in turn, oldest
/// first, inserted into a map, so that the newest binding for a name wins.
pub open spec fn map_of(entries: Seq<(String, i32)>) -> Map<Seq<char>, i32>
    decreases entries.len(),
{
    if entries.len() == 0 {
        Map::empty()
    } else {
        map_of(entries.drop_last()).insert(entries.last().0@, entries.last().1)
    }
}

/// A mutable mapping from variable name to integer value.
pub struct Environment {
    entries: Vec<(String, i32)>,
}

impl View for Environment {
    type V = Map<Seq<char>, i32>;

    closed spec fn view(&self) -> Map<Seq<char>, i32> {
        map_of(self.entries@)
    }
}

impl Environment {
    /// An environment with no bindings.
    pub fn new() -> (r: Self)
        ensures
            r@ == Map::<Seq<char>, i32>::empty(),
    {
        Self { entries: Vec::new() }
    }

    /// Binds `name` to `value`, overwriting any earlier binding of `name`.
    pub fn insert(&mut self, name: String, value: i32)
        ensures
            final(self)@ == old(self)@.insert(name@, value),
    {
        self.entries.push((name, value));
        proof {
            assert(self.entries@.drop_last() =~= old(self).entries@);
        }
    }

    /// Looks `name` up: the value of its newest binding, or `None` if it has
    /// never been bound.
    pub fn get(&self, name: &String) -> (r: Option<i32>)
        ensures
            match r {
                Some(v) => self@.dom().contains(name@) && self@[name@] == v,
                None => !self@.dom().contains(name@),
            },
    {
        let mut i: usize = self.entries.len();
        proof {
            assert(self.entries@.take(i as int) =~= self.entries@);
        }
        while i > 0
            invariant
                i <= self.entries@.len(),
                map_of(self.entries@).dom().contains(name@) <==> map_of(
                    self.entries@.take(i as int),
                ).dom().contains(name@),
                map_of(self.entries@.take(i as int)).dom().contains(name@) ==> map_of(
                    self.entries@.take(i as int),
                )[name@] == map_of(self.entries@)[name@],
            decreases i,
        {
            i = i - 1;
            proof {
                assert(self.entries@.take(i as int + 1).drop_last() =~= self.entries@.take(
                    i as int,
                ));
                assert(self.entries@.take(i as int + 1).last() == self.entries@[i as int]);
            }
            if self.entries[i].0 == *name {
                return Some(self.entries[i].1);
            }
        }
        proof {
            assert(self.entries@.take(0) =~= Seq::<(String, i32)>::empty());
        }
        None
    }
}

} // verus!
