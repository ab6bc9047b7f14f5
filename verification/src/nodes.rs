//! Counts, indices and index-addressed tables over a fixed population of nodes.

use vstd::prelude::*;

verus! {

/// A number of nodes: the size of the population, or how many of its members
/// have some property.
#[derive(Clone, Copy, Debug, PartialEq, Eq, Structural)]
pub struct NodeCount(pub usize);

/// The position of one node in the population, counted from zero.
#[derive(Clone, Copy, Debug, PartialEq, Eq, Structural)]
pub struct NodeIndex(pub usize);

/// The quorum threshold of a population of `n` nodes: two thirds of it, rounded
/// down. A quorum is any count strictly above it.
pub open spec fn quorum_threshold(n: nat) -> nat {
    (2 * n) / 3
}

impl NodeCount {
    /// The quorum threshold of this population, for every count that a `usize`
    /// can hold.
    pub fn quorum_threshold(self) -> (t: NodeCount)
        ensures
            t.0 == quorum_threshold(self.0 as nat),
    {
        let thirds: usize = self.0 / 3;
        let rest: usize = self.0 % 3;
        NodeCount(2 * thirds + (2 * rest) / 3)
    }

    /// Whether `self` members are a quorum in a population of `population`.
    pub fn is_quorum_of(self, population: NodeCount) -> (yes: bool)
        ensures
            yes == (self.0 > quorum_threshold(population.0 as nat)),
    {
        self.0 > population.quorum_threshold().0
    }
}

/// How many slots of a table are filled.
pub open spec fn filled<T>(slots: Seq<Option<T>>) -> nat
    decreases slots.len(),
{
    if slots.len() == 0 {
        0
    } else {
        filled(slots.drop_last()) + if slots.last() is Some {
            1nat
        } else {
            0nat
        }
    }
}

/// The table of `n` slots in which none is filled.
pub open spec fn empty_table<T>(n: nat) -> Seq<Option<T>> {
    Seq::new(n, |i: int| None::<T>)
}

/// A table has at most as many filled slots as it has slots.
pub proof fn lemma_filled_bound<T>(slots: Seq<Option<T>>)
    ensures
        filled(slots) <= slots.len(),
    decreases slots.len(),
{
    if slots.len() > 0 {
        lemma_filled_bound(slots.drop_last());
    }
}

/// No slot of the empty table is filled.
pub proof fn lemma_filled_empty<T>(n: nat)
    ensures
        filled(empty_table::<T>(n)) == 0,
    decreases n,
{
    if n > 0 {
        lemma_filled_empty::<T>((n - 1) as nat);
        assert(empty_table::<T>(n).drop_last() =~= empty_table::<T>((n - 1) as nat));
    }
}

/// Filling an open slot adds exactly one to the number of filled slots.
pub proof fn lemma_filled_after_fill<T>(slots: Seq<Option<T>>, i: int, value: T)
    requires
        0 <= i < slots.len(),
        slots[i] is None,
    ensures
        filled(slots.update(i, Some(value))) == filled(slots) + 1,
    decreases slots.len(),
{
    let after = slots.update(i, Some(value));
    if i == slots.len() - 1 {
        assert(after.drop_last() =~= slots.drop_last());
    } else {
        lemma_filled_after_fill(slots.drop_last(), i, value);
        assert(after.drop_last() =~= slots.drop_last().update(i, Some(value)));
    }
}

/// A table with an open slot has fewer filled slots than slots.
pub proof fn lemma_filled_below_len<T>(slots: Seq<Option<T>>, i: int)
    requires
        0 <= i < slots.len(),
        slots[i] is None,
    ensures
        filled(slots) < slots.len(),
    decreases slots.len(),
{
    if i == slots.len() - 1 {
        lemma_filled_bound(slots.drop_last());
    } else {
        lemma_filled_below_len(slots.drop_last(), i);
    }
}

/// A table with one slot for each node of a population, addressed by
/// [`NodeIndex`]. Its view is the sequence of its slots.
#[derive(Clone, Debug, PartialEq, Eq)]
pub struct NodeMap<T>(Vec<T>);

impl<T> View for NodeMap<T> {
    type V = Seq<T>;

    closed spec fn view(&self) -> Seq<T> {
        self.0@
    }
}

impl<T> NodeMap<T> {
    /// The number of slots.
    pub fn size(&self) -> (n: NodeCount)
        ensures
            n.0 == self@.len(),
    {
        NodeCount(self.0.len())
    }

    /// The slot of node `i`.
    pub fn get(&self, i: NodeIndex) -> (slot: &T)
        requires
            i.0 < self@.len(),
        ensures
            *slot == self@[i.0 as int],
    {
        &self.0[i.0]
    }

    /// Puts `value` into the slot of node `i` and leaves the other slots.
    pub fn set(&mut self, i: NodeIndex, value: T)
        requires
            i.0 < old(self)@.len(),
        ensures
            final(self)@ == old(self)@.update(i.0 as int, value),
    {
        self.0[i.0] = value;
    }

    /// The slots in index order.
    pub fn as_slice(&self) -> (slots: &[T])
        ensures
            slots@ == self@,
    {
        self.0.as_slice()
    }
}

impl<T: Copy> NodeMap<T> {
    /// A table with the same slots: the snapshot that a new unit takes of its
    /// parents.
    pub fn duplicate(&self) -> (copy: NodeMap<T>)
        ensures
            copy@ == self@,
    {
        let mut slots: Vec<T> = Vec::new();
        let mut i: usize = 0;
        while i < self.0.len()
            invariant
                i <= self.0.len(),
                slots@ == self.0@.take(i as int),
            decreases self.0.len() - i,
        {
            slots.push(self.0[i]);
            i += 1;
            assert(self.0@.take(i as int) =~= self.0@.take(i - 1).push(self.0@[i - 1]));
        }
        assert(self.0@.take(i as int) =~= self.0@);
        NodeMap(slots)
    }
}

impl<T> NodeMap<Option<T>> {
    /// The table of `len` slots in which none is filled.
    pub fn new_with_len(len: NodeCount) -> (table: NodeMap<Option<T>>)
        ensures
            table@ == empty_table::<T>(len.0 as nat),
    {
        let mut slots: Vec<Option<T>> = Vec::new();
        let mut i: usize = 0;
        while i < len.0
            invariant
                i <= len.0,
                slots@ == empty_table::<T>(i as nat),
            decreases len.0 - i,
        {
            slots.push(None);
            i += 1;
            assert(slots@ =~= empty_table::<T>(i as nat));
        }
        NodeMap(slots)
    }
}

} // verus!
