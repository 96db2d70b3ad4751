//! Vector addressing in the GIN CPU interrupt tree.
//!
//! A vector's number fixes where it latches: leaf `vector / 32` at bit `vector % 32`, and that leaf
//! belongs to subtree `vector / 64`. The types here keep those three views apart, so a leaf index, a
//! set of vectors within one leaf, and a `TOP` bit cannot stand in for one another.

use vstd::arithmetic::power2::{lemma_pow2_unfold, pow2};
use vstd::prelude::*;

use crate::bits::{bit32, get_bit32};
use crate::error::Error;

verus! {

/// Number of vectors the widest supported tree carries.
pub const MAX_VECTORS: u32 = 512;

/// Number of leaves a tree implements.
///
/// Every supported part implements one of these two counts, and the interrupt HAL names the one its
/// architecture uses.
#[derive(Clone, Copy, Debug, PartialEq, Eq, Structural)]
pub enum LeafCount {
    /// Turing through Ada.
    Eight,
    /// Hopper and later.
    Sixteen,
}

impl LeafCount {
    /// The number of leaves.
    pub open spec fn count(self) -> u32 {
        match self {
            LeafCount::Eight => 8,
            LeafCount::Sixteen => 16,
        }
    }

    /// Returns the number of leaves.
    pub fn into_u32(self) -> (count: u32)
        ensures
            count == self.count(),
    {
        match self {
            LeafCount::Eight => 8,
            LeafCount::Sixteen => 16,
        }
    }

    /// Returns the number of leaves, in the type that indexes the leaf register arrays.
    pub fn into_raw(self) -> (count: usize)
        ensures
            count == self.count(),
    {
        self.into_u32() as usize
    }

    /// Returns the number of subtrees, each of which covers two leaves.
    pub fn subtree_count(self) -> (count: u32)
        ensures
            count == self.count() / 2,
    {
        self.into_u32() / 2
    }

    /// The set of every subtree a tree of this size implements.
    pub open spec fn spec_subtree_set(self) -> SubtreeSet {
        match self {
            LeafCount::Eight => SubtreeSet { raw: 0x0f },
            LeafCount::Sixteen => SubtreeSet { raw: 0xff },
        }
    }

    /// Returns the set of every subtree a tree of this size implements.
    pub fn subtree_set(self) -> (set: SubtreeSet)
        ensures
            set == self.spec_subtree_set(),
    {
        match self {
            LeafCount::Eight => SubtreeSet { raw: 0x0f },
            LeafCount::Sixteen => SubtreeSet { raw: 0xff },
        }
    }

    /// Returns the number of vectors a tree of this size carries.
    pub fn vector_count(self) -> (count: u32)
        ensures
            count == self.count() * 32,
    {
        self.into_u32() * 32
    }
}

/// Set of vectors within one leaf, one bit per vector.
#[derive(Clone, Copy, Debug, PartialEq, Eq, Structural)]
pub struct LeafMask {
    pub raw: u32,
}

impl LeafMask {
    /// Whether every vector set in `other` is also set here.
    pub open spec fn spec_contains(self, other: LeafMask) -> bool {
        self.raw & other.raw == other.raw
    }

    /// Returns the mask with every vector of the leaf set.
    pub fn all() -> (mask: Self)
        ensures
            mask.raw == u32::MAX,
    {
        LeafMask { raw: u32::MAX }
    }

    /// Returns the mask holding the vectors set in `raw`.
    pub fn from_raw(raw: u32) -> (mask: Self)
        ensures
            mask.raw == raw,
    {
        LeafMask { raw }
    }

    /// Returns the mask as the value the leaf registers take.
    pub fn into_raw(self) -> (raw: u32)
        ensures
            raw == self.raw,
    {
        self.raw
    }

    /// Returns whether no vector is set.
    pub fn is_empty(self) -> (empty: bool)
        ensures
            empty == (self.raw == 0),
    {
        self.raw == 0
    }

    /// Returns whether every vector set in `other` is also set here.
    pub fn contains(self, other: Self) -> (result: bool)
        ensures
            result == self.spec_contains(other),
    {
        self.raw & other.raw == other.raw
    }
}

/// One subtree, named by its `TOP` bit.
#[derive(Clone, Copy, Debug, PartialEq, Eq, Structural)]
pub struct Subtree {
    index: u32,
}

impl Subtree {
    /// The index of the subtree within the tree.
    pub closed spec fn spec_index(self) -> u32 {
        self.index
    }

    /// The subtree as the value the `TOP` enable registers take: exactly one bit is set.
    pub open spec fn spec_raw(self) -> u32 {
        1u32 << self.spec_index()
    }

    /// Whether the index is that of a bit.
    #[verifier::type_invariant]
    pub open spec fn wf(self) -> bool {
        self.spec_index() < 32
    }

    /// Returns the subtree at index `idx`.
    pub fn new(idx: u32) -> (subtree: Self)
        requires
            idx < 32,
        ensures
            subtree.spec_index() == idx,
    {
        Subtree { index: idx }
    }

    /// Returns this subtree's index within the tree.
    ///
    /// Under MSI-X this is also the index of the allocated entry the subtree raises.
    pub fn index(self) -> (index: u32)
        ensures
            index == self.spec_index(),
            index < 32,
    {
        proof {
            use_type_invariant(&self);
        }
        self.index
    }

    /// Returns the subtree as the value the `TOP` enable registers take.
    pub fn into_raw(self) -> (raw: u32)
        ensures
            raw == self.spec_raw(),
    {
        proof {
            use_type_invariant(&self);
        }
        1u32 << self.index
    }
}

/// Set of subtrees, one bit per subtree, in the layout the `TOP` enable registers take.
#[derive(Clone, Copy, Debug, PartialEq, Eq, Structural)]
pub struct SubtreeSet {
    pub raw: u32,
}

impl SubtreeSet {
    /// Whether the subtree at `index` belongs to this set.
    pub open spec fn has(self, index: u32) -> bool {
        bit32(self.raw, index as u64)
    }

    /// Returns whether `subtree` belongs to this set.
    pub fn contains(self, subtree: Subtree) -> (result: bool)
        ensures
            result == self.has(subtree.spec_index()),
    {
        get_bit32(self.raw, subtree.index() as u64)
    }

    /// Returns whether the set holds no subtree.
    pub fn is_empty(self) -> (empty: bool)
        ensures
            empty == (self.raw == 0),
    {
        self.raw == 0
    }

    /// Returns the subtrees present in both sets.
    pub fn intersection(self, other: Self) -> (set: Self)
        ensures
            set.raw == self.raw & other.raw,
    {
        SubtreeSet { raw: self.raw & other.raw }
    }

    /// Whether `count` is the number of subtrees from subtree `0` through the highest one in this
    /// set.
    pub open spec fn spans(self, count: u32) -> bool {
        &&& self.raw < pow2(count as nat)
        &&& count > 0 ==> pow2((count - 1) as nat) <= self.raw
    }

    /// Returns the number of subtrees counted from subtree `0` through the highest one in this set,
    /// which is `0` for an empty set.
    pub fn span(self) -> (count: u32)
        ensures
            self.spans(count),
            count <= 32,
    {
        let mut count: u32 = 0;
        let mut limit: u64 = 1;
        proof {
            vstd::arithmetic::power2::lemma2_to64();
        }
        while limit <= self.raw as u64
            invariant
                limit == pow2(count as nat),
                count <= 32,
                limit <= 0x1_0000_0000,
                pow2(32) == 0x1_0000_0000,
                count > 0 ==> pow2((count - 1) as nat) <= self.raw,
            decreases 32 - count,
        {
            proof {
                lemma_pow2_unfold((count + 1) as nat);
                if count == 32 {
                    assert(false);
                }
                if count + 1 < 32 {
                    vstd::arithmetic::power2::lemma_pow2_strictly_increases(
                        (count + 1) as nat,
                        32,
                    );
                }
            }
            limit = limit * 2;
            count = count + 1;
        }
        count
    }

    /// Returns the set that holds `subtree` alone.
    pub fn of(subtree: Subtree) -> (set: Self)
        ensures
            set.raw == subtree.spec_raw(),
    {
        SubtreeSet { raw: subtree.into_raw() }
    }

    /// Returns the subtrees of this set, lowest index first.
    pub fn subtrees(self) -> (subtrees: Vec<Subtree>)
        ensures
            subtrees@ == subtrees_below(self, 32),
    {
        let mut subtrees: Vec<Subtree> = Vec::new();
        let mut index: u32 = 0;
        while index < 32
            invariant
                index <= 32,
                subtrees@ == subtrees_below(self, index as nat),
            decreases 32 - index,
        {
            let subtree = Subtree::new(index);
            if self.contains(subtree) {
                subtrees.push(subtree);
            }
            index = index + 1;
        }
        subtrees
    }
}

/// The subtrees of a set whose index is below `limit`, lowest first.
pub closed spec fn subtrees_below(set: SubtreeSet, limit: nat) -> Seq<Subtree>
    decreases limit,
{
    if limit == 0 {
        seq![]
    } else {
        let index = (limit - 1) as u32;
        let rest = subtrees_below(set, (limit - 1) as nat);
        if set.has(index) {
            rest.push(Subtree { index })
        } else {
            rest
        }
    }
}

/// The subtrees of a set are those with an index that belongs to it, in rising order.
pub proof fn law_subtrees_of_set(set: SubtreeSet, limit: nat)
    requires
        limit <= 32,
    ensures
        forall|i: int|
            0 <= i < subtrees_below(set, limit).len() ==> {
                let index = (#[trigger] subtrees_below(set, limit)[i]).spec_index();
                index < limit && set.has(index)
            },
        forall|i: int, j: int|
            0 <= i < j < subtrees_below(set, limit).len() ==> (#[trigger] subtrees_below(
                set,
                limit,
            )[i]).spec_index() < (#[trigger] subtrees_below(set, limit)[j]).spec_index(),
        forall|index: u32|
            index < limit && #[trigger] set.has(index) ==> exists|i: int|
                0 <= i < subtrees_below(set, limit).len() && (#[trigger] subtrees_below(
                    set,
                    limit,
                )[i]).spec_index() == index,
    decreases limit,
{
    if limit > 0 {
        let last = (limit - 1) as u32;
        let rest = subtrees_below(set, (limit - 1) as nat);
        law_subtrees_of_set(set, (limit - 1) as nat);
        let all = subtrees_below(set, limit);
        assert forall|index: u32| index < limit && #[trigger] set.has(index) implies exists|i: int|
            0 <= i < all.len() && (#[trigger] all[i]).spec_index() == index by {
            if index == last {
                assert(all[all.len() - 1].spec_index() == index);
            } else {
                let i = choose|i: int|
                    0 <= i < rest.len() && (#[trigger] rest[i]).spec_index() == index;
                assert(all[i] == rest[i]);
            }
        }
    }
}

/// The set of one subtree holds that subtree and no other.
pub proof fn law_set_of_one(subtree: Subtree, index: u32)
    requires
        subtree.wf(),
        index < 32,
    ensures
        (SubtreeSet { raw: subtree.spec_raw() }).has(index) <==> index == subtree.spec_index(),
{
    lemma_single_bit(subtree.spec_index(), index);
}

/// A one shifted to a place is set there and nowhere else.
proof fn lemma_single_bit(place: u32, index: u32)
    by (bit_vector)
    requires
        place < 32,
        index < 32,
    ensures
        bit32((1u32 << place), index as u64) <==> index == place,
{
}

/// A GIN interrupt vector, bounded to the widest tree any supported part implements.
#[derive(Clone, Copy, Debug, PartialEq, Eq, Structural)]
pub struct GinVector {
    vector: u32,
}

impl GinVector {
    /// The vector number.
    pub closed spec fn spec_raw(self) -> u32 {
        self.vector
    }

    /// Whether the vector lies in the widest tree any supported part implements.
    #[verifier::type_invariant]
    pub open spec fn wf(self) -> bool {
        self.spec_raw() < MAX_VECTORS
    }

    /// Returns the vector numbered `VECTOR`.
    pub fn new<const VECTOR: u32>() -> (vector: Self)
        requires
            VECTOR < MAX_VECTORS,
        ensures
            vector.spec_raw() == VECTOR,
    {
        GinVector { vector: VECTOR }
    }

    /// Returns the vector number.
    pub fn into_raw(self) -> (raw: u32)
        ensures
            raw == self.spec_raw(),
            raw < MAX_VECTORS,
    {
        proof {
            use_type_invariant(&self);
        }
        self.vector
    }

    /// Returns the leaf that carries this vector.
    pub fn leaf_index(self) -> (leaf: usize)
        ensures
            leaf == self.spec_raw() / 32,
            leaf < 16,
    {
        proof {
            use_type_invariant(&self);
        }
        (self.vector / 32) as usize
    }

    /// This vector's bit within its leaf.
    pub open spec fn spec_leaf_mask(self) -> LeafMask {
        LeafMask { raw: 1u32 << (self.spec_raw() % 32) }
    }

    /// Returns this vector's bit within its leaf.
    pub fn leaf_mask(self) -> (mask: LeafMask)
        ensures
            mask == self.spec_leaf_mask(),
    {
        LeafMask { raw: 1u32 << (self.vector % 32) }
    }

    /// Returns the subtree that carries this vector.
    pub fn subtree(self) -> (subtree: Subtree)
        ensures
            subtree.spec_index() == self.spec_raw() / 64,
    {
        proof {
            use_type_invariant(&self);
        }
        Subtree::new(self.vector / 64)
    }

    /// Checks that this vector lies within a tree of `leaves` leaves.
    pub fn validate(self, leaves: LeafCount) -> (result: Result<(), Error>)
        ensures
            result == if self.spec_raw() >= leaves.count() * 32 {
                Err::<(), Error>(Error::EINVAL)
            } else {
                Ok(())
            },
    {
        if self.vector >= leaves.vector_count() {
            return Err(Error::EINVAL);
        }
        Ok(())
    }
}

/// A mask holds the bit of a vector if and only if that bit is set in it.
pub proof fn law_leaf_mask_contains_vector(mask: LeafMask, vector: GinVector)
    ensures
        mask.spec_contains(vector.spec_leaf_mask()) <==> bit32(
            mask.raw,
            (vector.spec_raw() % 32) as u64,
        ),
{
    lemma_contains_bit(mask.raw, (vector.spec_raw() % 32) as u32);
}

/// Masking with a single bit keeps it if and only if it is set.
proof fn lemma_contains_bit(raw: u32, place: u32)
    by (bit_vector)
    requires
        place < 32,
    ensures
        raw & (1u32 << place) == (1u32 << place) <==> bit32(raw, place as u64),
{
}

/// A vector that lies within a tree lies in one of its leaves and in one of its subtrees, which is
/// the one that covers the leaf.
pub proof fn law_vector_in_tree(vector: GinVector, leaves: LeafCount)
    requires
        vector.spec_raw() < leaves.count() * 32,
    ensures
        vector.spec_raw() / 32 < leaves.count(),
        vector.spec_raw() / 64 == (vector.spec_raw() / 32) / 2,
        leaves.spec_subtree_set().has((vector.spec_raw() / 64) as u32),
{
    lemma_low_bits_set((vector.spec_raw() / 64) as u32);
}

/// The sets of all subtrees hold the low indexes.
proof fn lemma_low_bits_set(index: u32)
    by (bit_vector)
    ensures
        index < 4 ==> bit32(0x0f, index as u64),
        index < 8 ==> bit32(0xff, index as u64),
{
}

/// A tree has eight or sixteen leaves, and its subtrees are the lowest ones, one for two leaves.
pub proof fn law_subtrees_of_tree(leaves: LeafCount, index: u32)
    requires
        index < 32,
    ensures
        LeafCount::Eight.count() == 8,
        LeafCount::Sixteen.count() == 16,
        leaves.spec_subtree_set().has(index) <==> 2 * index < leaves.count(),
{
    lemma_only_low_bits_set(index);
}

/// The sets of all subtrees hold the low indexes alone.
proof fn lemma_only_low_bits_set(index: u32)
    by (bit_vector)
    requires
        index < 32,
    ensures
        bit32(0x0f, index as u64) <==> index < 4,
        bit32(0xff, index as u64) <==> index < 8,
{
}

/// A set has the subtree of an index where its number is odd once the bits below that index are cut
/// off, and a subtree as a register value is two to the power of its index.
pub proof fn law_subtree_numbers(set: SubtreeSet, subtree: Subtree)
    requires
        subtree.wf(),
    ensures
        set.has(subtree.spec_index()) <==> (set.raw as nat / pow2(subtree.spec_index() as nat)) % 2
            == 1,
        subtree.spec_raw() == pow2(subtree.spec_index() as nat),
{
    let index = subtree.spec_index();
    crate::bits::law_bit32_is_digit(set.raw, index as u64);
    lemma_one_shifted(index);
}

/// A one shifted to a place is two to the power of that place.
proof fn lemma_one_shifted(place: u32)
    requires
        place < 32,
    ensures
        1u32 << place == pow2(place as nat),
{
    vstd::arithmetic::power2::lemma2_to64();
    vstd::arithmetic::power2::lemma_pow2_strictly_increases(place as nat, 32);
    vstd::bits::lemma_u32_shl_is_mul(1, place);
}

/// The span of a set ends with its highest subtree.
pub proof fn law_span_ends_with_highest(set: SubtreeSet, count: u32)
    requires
        set.spans(count),
        count <= 32,
    ensures
        count == 0 <==> set.raw == 0,
        count > 0 ==> set.has((count - 1) as u32),
{
    vstd::arithmetic::power2::lemma2_to64();
    if count > 0 {
        let place = (count - 1) as nat;
        lemma_pow2_unfold(count as nat);
        vstd::arithmetic::power2::lemma_pow2_pos(place);
        crate::bits::law_bit32_is_digit(set.raw, place as u64);
        let step = pow2(place) as int;
        vstd::arithmetic::div_mod::lemma_fundamental_div_mod_converse(
            set.raw as int,
            step,
            1,
            set.raw - step,
        );
    }
}

/// A mask contains another where it lacks none of its bits. The mask of a vector is two to the power
/// of its place in its leaf.
pub proof fn law_leaf_masks(mask: LeafMask, other: LeafMask, vector: GinVector)
    ensures
        mask.spec_contains(other) <==> other.raw & !mask.raw == 0,
        vector.spec_leaf_mask().raw == pow2((vector.spec_raw() % 32) as nat),
{
    lemma_contains_all(mask.raw, other.raw);
    lemma_one_shifted((vector.spec_raw() % 32) as u32);
}

/// A word keeps all bits of another under masking where it lacks none of them.
proof fn lemma_contains_all(raw: u32, other: u32)
    by (bit_vector)
    ensures
        raw & other == other <==> other & !raw == 0,
{
}

} // verus!
