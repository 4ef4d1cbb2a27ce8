use vstd::prelude::*;

verus! {

/// Largest slot index an identity can carry: the index lives in 24 bits.
pub const MAX_INDEX: u32 = 0xFF_FFFF;

/// A compact, copyable generational handle naming the logical occupant of a
/// slot. The low 24 bits hold the slot index, the high 8 bits a generation
/// counter; the generation detects stale references to a reused slot.
/// Equality and hashing go over the full packed value.
#[derive(Copy, Clone, PartialEq, Eq, Structural, Hash, Debug)]
pub struct ID {
    bits: u32,
}

impl ID {
    /// The slot index packed into the low 24 bits.
    pub closed spec fn spec_index(self) -> u32 {
        self.bits & 0xFF_FFFF
    }

    /// The generation counter packed into the high 8 bits.
    pub closed spec fn spec_generation(self) -> u8 {
        (self.bits >> 24) as u8
    }

    /// The 64-bit correlation token handed to the readiness poller.
    pub closed spec fn spec_token(self) -> u64 {
        self.bits as u64
    }

    /// The identity with the given index and generation (index taken modulo
    /// its 24-bit range).
    pub closed spec fn spec_new(index: u32, generation: u8) -> ID {
        ID { bits: ((generation as u32) << 24) | (index & 0xFF_FFFF) }
    }

    /// The identity a correlation token decodes to: the token's low 32 bits
    /// read as a packed identity.
    pub closed spec fn spec_from_token(v: u64) -> ID {
        ID { bits: v as u32 }
    }

    /// The same index, with the generation advanced by one, wrapping modulo 256.
    pub open spec fn spec_next_generation(self) -> ID {
        ID::spec_new(self.spec_index(), ((self.spec_generation() + 1) % 256) as u8)
    }

    /// The same index, with the generation stepped back by one, wrapping
    /// modulo 256: the inverse of `spec_next_generation`.
    pub open spec fn spec_prev_generation(self) -> ID {
        ID::spec_new(self.spec_index(), ((self.spec_generation() + 255) % 256) as u8)
    }

    pub fn new(index: u32, generation: u8) -> (r: ID)
        requires
            index <= MAX_INDEX,
        ensures
            r == ID::spec_new(index, generation),
            r.spec_index() == index,
            r.spec_generation() == generation,
    {
        proof {
            ID::lemma_parts(index, generation);
            assert(((generation as u32) << 24) | index == ((generation as u32) << 24) | (index
                & 0xFF_FFFF)) by (bit_vector)
                requires
                    index <= 0xFF_FFFFu32,
            ;
        }
        ID { bits: ((generation as u32) << 24) | index }
    }

    /// Identity construction guarded against an out-of-range index: `None`
    /// exactly when the index does not fit in 24 bits.
    pub fn checked_new(index: u32, generation: u8) -> (r: Option<ID>)
        ensures
            index <= MAX_INDEX <==> r is Some,
            r matches Some(id) ==> id == ID::spec_new(index, generation),
    {
        if index <= MAX_INDEX {
            Some(ID::new(index, generation))
        } else {
            None
        }
    }

    pub fn index(self) -> (r: usize)
        ensures
            r == self.spec_index(),
    {
        proof {
            ID::lemma_index_bound(self);
        }
        (self.bits & 0xFF_FFFF) as usize
    }

    pub fn generation(self) -> (r: u8)
        ensures
            r == self.spec_generation(),
    {
        (self.bits >> 24) as u8
    }

    /// True exactly when the two identities carry the same generation bits,
    /// whatever their indices. The dispatch loop uses this to confirm that the
    /// occupant of a slot is the one a readiness event was issued for.
    pub fn is_same_generation(self, other: ID) -> (r: bool)
        ensures
            r == (self.spec_generation() == other.spec_generation()),
    {
        let sb = self.bits;
        let ob = other.bits;
        proof {
            assert((sb & 0xFF00_0000 == ob & 0xFF00_0000) == (((sb >> 24) as u8) == ((ob
                >> 24) as u8))) by (bit_vector);
        }
        sb & 0xFF00_0000 == ob & 0xFF00_0000
    }

    /// The identity encoded as the poller's 64-bit correlation token: the
    /// generation widened into bits 24 to 31 above the index, as in the
    /// 32-bit packing.
    pub fn to_u64(self) -> (r: u64)
        ensures
            r == self.spec_token(),
            r == ((self.spec_generation() as u64) << 24) | (self.spec_index() as u64),
            r <= u32::MAX,
    {
        let b = self.bits;
        proof {
            assert(b as u64 == ((((b >> 24) as u8) as u64) << 24) | ((b & 0xFF_FFFF) as u64))
                by (bit_vector);
        }
        self.bits as u64
    }

    /// Decodes a correlation token handed back by the poller. Tokens of
    /// armed watches fit in 32 bits, and on those the decoding inverts
    /// `to_u64`; wider values are truncated.
    pub(crate) fn from_u64(v: u64) -> (r: ID)
        ensures
            r == ID::spec_from_token(v),
            v <= u32::MAX ==> r.spec_token() == v,
            forall|j: ID| j.spec_token() == v ==> r == j,
    {
        let r = ID { bits: #[verifier::truncate] (v as u32) };
        proof {
            assert forall|j: ID| j.spec_token() == v implies r == j by {
                let jb = j.bits;
                assert(jb as u64 == v ==> jb == v as u32) by (bit_vector);
            }
        }
        r
    }

    /// The same index with the generation advanced by one, wrapping silently
    /// modulo 256: 256 generations are treated as enough to make a stale
    /// match improbable, a documented probabilistic trade-off.
    pub fn next_generation(self) -> (r: ID)
        ensures
            r == self.spec_next_generation(),
            r.spec_index() == self.spec_index(),
            r.spec_generation() == (self.spec_generation() + 1) % 256,
    {
        proof {
            ID::lemma_index_bound(self);
            ID::lemma_parts(self.spec_index(), ((self.spec_generation() + 1) % 256) as u8);
        }
        let g = self.generation();
        let bumped: u8 = if g == 255 { 0 } else { g + 1 };
        let idx = self.index();
        ID::new(idx as u32, bumped)
    }

    /// The same index with the generation stepped back by one, wrapping
    /// modulo 256: the inverse of `next_generation`.
    pub(crate) fn prev_generation(self) -> (r: ID)
        ensures
            r == self.spec_prev_generation(),
            r.spec_index() == self.spec_index(),
            r.spec_next_generation() == self,
    {
        proof {
            ID::lemma_index_bound(self);
            ID::lemma_parts(self.spec_index(), ((self.spec_generation() + 255) % 256) as u8);
        }
        let g = self.generation();
        let stepped: u8 = if g == 0 { 255 } else { g - 1 };
        let idx = self.index();
        let r = ID::new(idx as u32, stepped);
        proof {
            ID::lemma_id_eq(r, self.spec_prev_generation());
            ID::lemma_parts(r.spec_index(), ((r.spec_generation() + 1) % 256) as u8);
            ID::lemma_id_eq(r.spec_next_generation(), self);
        }
        r
    }

    /// Stepping the generation forward and then back restores the identity.
    pub proof fn lemma_prev_of_next(id: ID)
        ensures
            id.spec_next_generation().spec_prev_generation() == id,
    {
        ID::lemma_index_bound(id);
        ID::lemma_parts(id.spec_index(), ((id.spec_generation() + 1) % 256) as u8);
        let n = id.spec_next_generation();
        ID::lemma_parts(n.spec_index(), ((n.spec_generation() + 255) % 256) as u8);
        assert(((id.spec_generation() + 1) % 256 + 255) % 256 == id.spec_generation());
        ID::lemma_id_eq(n.spec_prev_generation(), id);
    }

    /// An identity's index always fits in 24 bits.
    pub proof fn lemma_index_bound(id: ID)
        ensures
            id.spec_index() <= MAX_INDEX,
    {
        let b = id.bits;
        assert(b & 0xFF_FFFF <= 0xFF_FFFF) by (bit_vector);
    }

    /// `spec_new` recovers the index and generation it was built from,
    /// provided the index is in range.
    pub proof fn lemma_parts(index: u32, generation: u8)
        requires
            index <= MAX_INDEX,
        ensures
            ID::spec_new(index, generation).spec_index() == index,
            ID::spec_new(index, generation).spec_generation() == generation,
    {
        assert((((generation as u32) << 24) | (index & 0xFF_FFFF)) & 0xFF_FFFF == index
            && (((((generation as u32) << 24) | (index & 0xFF_FFFF)) >> 24) as u8)
            == generation) by (bit_vector)
            requires
                index <= 0xFF_FFFFu32,
        ;
    }

    /// Index and generation together determine the identity: the packing is
    /// injective.
    pub proof fn lemma_id_eq(a: ID, b: ID)
        requires
            a.spec_index() == b.spec_index(),
            a.spec_generation() == b.spec_generation(),
        ensures
            a == b,
    {
        let ab = a.bits;
        let bb = b.bits;
        assert(ab == bb) by (bit_vector)
            requires
                ab & 0xFF_FFFF == bb & 0xFF_FFFF,
                ((ab >> 24) as u8) == ((bb >> 24) as u8),
        ;
    }
}

} // verus!
