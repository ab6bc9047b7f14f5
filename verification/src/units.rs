//! The unit that a node creates, and the bytes that its hash is taken of.

use crate::nodes::{NodeIndex, NodeMap};
use vstd::bytes::{spec_u64_to_le_bytes, u64_to_le_bytes};
use vstd::prelude::*;

verus! {

/// The level of a unit in the DAG. The parents of a unit of round `r` are units
/// of round `r - 1`.
pub type Round = usize;

/// A hash value that can stand in a unit's serialized identity.
pub trait HashT: Copy {
    /// The bytes that stand for this hash.
    spec fn hash_bytes(&self) -> Seq<u8>;

    /// The bytes that stand for this hash, as a vector.
    fn to_bytes(&self) -> (bytes: Vec<u8>)
        ensures
            bytes@ == self.hash_bytes(),
    ;
}

/// A 64-bit hash stands as its eight bytes, lowest first.
impl HashT for u64 {
    open spec fn hash_bytes(&self) -> Seq<u8> {
        spec_u64_to_le_bytes(*self)
    }

    fn to_bytes(&self) -> (bytes: Vec<u8>) {
        u64_to_le_bytes(*self)
    }
}

/// A hash of 32 bytes stands as these bytes.
impl HashT for [u8; 32] {
    open spec fn hash_bytes(&self) -> Seq<u8> {
        self@
    }

    fn to_bytes(&self) -> (bytes: Vec<u8>) {
        let mut bytes: Vec<u8> = Vec::new();
        let mut i: usize = 0;
        while i < 32
            invariant
                i <= 32,
                bytes@ == self@.take(i as int),
            decreases 32 - i,
        {
            bytes.push(self[i]);
            i += 1;
            assert(self@.take(i as int) =~= self@.take(i - 1).push(self@[i - 1]));
        }
        assert(self@.take(32) =~= self@);
        bytes
    }
}

/// The bytes of one parent slot: a single `0` for an open slot, a `1` followed
/// by the bytes of the hash for a filled one.
pub open spec fn slot_bytes<H: HashT>(slot: Option<H>) -> Seq<u8> {
    match slot {
        None => seq![0u8],
        Some(hash) => seq![1u8] + hash.hash_bytes(),
    }
}

/// The bytes of a parent table: those of its slots in index order.
pub open spec fn table_bytes<H: HashT>(slots: Seq<Option<H>>) -> Seq<u8>
    decreases slots.len(),
{
    if slots.len() == 0 {
        Seq::empty()
    } else {
        table_bytes(slots.drop_last()) + slot_bytes(slots.last())
    }
}

/// The serialized identity of a unit: the creator's index and the round, each as
/// eight bytes with the lowest first, and then the parent table.
pub open spec fn identity_bytes<H: HashT>(
    creator: NodeIndex,
    round: Round,
    parents: Seq<Option<H>>,
) -> Seq<u8> {
    spec_u64_to_le_bytes(creator.0 as u64) + spec_u64_to_le_bytes(round as u64) + table_bytes(
        parents,
    )
}

/// Writes out the serialized identity of a unit.
pub fn serialize_identity<H: HashT>(
    creator: NodeIndex,
    round: Round,
    parents: &NodeMap<Option<H>>,
) -> (bytes: Vec<u8>)
    ensures
        bytes@ == identity_bytes(creator, round, parents@),
{
    let mut bytes: Vec<u8> = u64_to_le_bytes(creator.0 as u64);
    let mut round_bytes: Vec<u8> = u64_to_le_bytes(round as u64);
    bytes.append(&mut round_bytes);
    let ghost head: Seq<u8> = bytes@;
    let slots: &[Option<H>] = parents.as_slice();
    let mut i: usize = 0;
    assert(slots@.take(0) =~= Seq::<Option<H>>::empty());
    while i < slots.len()
        invariant
            i <= slots.len(),
            slots@ == parents@,
            bytes@ == head + table_bytes(slots@.take(i as int)),
        decreases slots.len() - i,
    {
        let ghost before: Seq<Option<H>> = slots@.take(i as int);
        match slots[i] {
            None => {
                bytes.push(0u8);
            },
            Some(hash) => {
                bytes.push(1u8);
                let mut hash_bytes: Vec<u8> = hash.to_bytes();
                bytes.append(&mut hash_bytes);
            },
        }
        i += 1;
        proof {
            let upto: Seq<Option<H>> = slots@.take(i as int);
            assert(upto.drop_last() =~= before);
            assert(upto.last() == slots@[i - 1]);
            assert(bytes@ =~= head + table_bytes(upto));
        }
    }
    assert(slots@.take(i as int) =~= slots@);
    bytes
}

/// Whether `hashing` may return `hash` for the bytes `input`.
pub open spec fn hashes_to<H, F: Fn(&[u8]) -> H>(hashing: F, input: Seq<u8>, hash: H) -> bool {
    exists|bytes: &[u8]| bytes@ == input && #[trigger] call_ensures(hashing, (bytes,), hash)
}

/// Whether `hashing` can be called on every byte string.
pub open spec fn hashes_all<H, F: Fn(&[u8]) -> H>(hashing: F) -> bool {
    forall|bytes: &[u8]| #[trigger] call_requires(hashing, (bytes,))
}

/// What a [`PreUnit`] holds.
pub struct PreUnitView<H> {
    pub creator: NodeIndex,
    pub round: Round,
    pub parents: Seq<Option<H>>,
    pub hash: H,
}

/// A unit as its creator makes it: who made it, for which round, on which
/// parents, and the hash of these three.
#[derive(Clone, Debug, PartialEq, Eq)]
pub struct PreUnit<H> {
    creator: NodeIndex,
    round: Round,
    parents: NodeMap<Option<H>>,
    hash: H,
}

impl<H> View for PreUnit<H> {
    type V = PreUnitView<H>;

    closed spec fn view(&self) -> PreUnitView<H> {
        PreUnitView {
            creator: self.creator,
            round: self.round,
            parents: self.parents@,
            hash: self.hash,
        }
    }
}

impl<H: HashT> PreUnit<H> {
    /// Makes the unit of `creator` for `round` on `parents`. Its hash is what
    /// `hashing` returns for the unit's serialized identity.
    pub fn new_from_parents<F: Fn(&[u8]) -> H>(
        creator: NodeIndex,
        round: Round,
        parents: NodeMap<Option<H>>,
        hashing: &F,
    ) -> (unit: PreUnit<H>)
        requires
            hashes_all(*hashing),
        ensures
            unit@.creator == creator,
            unit@.round == round,
            unit@.parents == parents@,
            hashes_to(*hashing, identity_bytes(creator, round, parents@), unit@.hash),
    {
        let bytes: Vec<u8> = serialize_identity(creator, round, &parents);
        let hash: H = hashing(bytes.as_slice());
        PreUnit { creator, round, parents, hash }
    }

    /// The index of the node that made the unit.
    pub fn creator(&self) -> (creator: NodeIndex)
        ensures
            creator == self@.creator,
    {
        self.creator
    }

    /// The round of the unit.
    pub fn round(&self) -> (round: Round)
        ensures
            round == self@.round,
    {
        self.round
    }

    /// The parent table: for each node, the hash of its unit of the round
    /// before, where the creator knew one.
    pub fn parents(&self) -> (parents: &NodeMap<Option<H>>)
        ensures
            parents@ == self@.parents,
    {
        &self.parents
    }

    /// The hash of the unit.
    pub fn hash(&self) -> (hash: H)
        ensures
            hash == self@.hash,
    {
        self.hash
    }
}

} // verus!
