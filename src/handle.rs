//! The 64-bit coroutine instance handle and the small values packed into it.
//!
//! Layout, most significant bit first:
//! `[is-coroutine:1][reserved:3][manager-index:8][user-bits:4][generation:24][slot-index:24]`.
use vstd::prelude::*;

verus! {

/// Bit position of the is-coroutine flag.
pub const IS_COROUTINE_BIT_SHIFT: u64 = 63;

/// Bit position of the lowest bit of the manager index.
pub const MANAGER_INDEX_BIT_SHIFT: u64 = 52;

/// Bit position of the lowest user bit.
pub const USER_BITS_BIT_SHIFT: u64 = 48;

/// Bit position of the lowest bit of the generation.
pub const GENERATION_BIT_SHIFT: u64 = 24;

/// Exclusive upper bound of a generation and of a slot index (`2^24`).
pub const GENERATION_LIMIT: u32 = 0x100_0000;

/// Exclusive upper bound of the user bits (`2^4`).
pub const USER_BITS_LIMIT: u8 = 16;

/// Is the top bit of `v` set?
pub open spec fn is_coroutine_of(v: u64) -> bool {
    (v >> 63u64) & 1u64 == 1u64
}

/// The eight bits of the manager index inside `v`.
pub open spec fn manager_index_of(v: u64) -> u64 {
    (v >> 52u64) & 0xFFu64
}

/// The four user bits inside `v`.
pub open spec fn user_bits_of(v: u64) -> u64 {
    (v >> 48u64) & 0xFu64
}

/// The three reserved bits inside `v`.
pub open spec fn reserved_bits_of(v: u64) -> u64 {
    (v >> 60u64) & 0x7u64
}

/// The 24 bits of the generation inside `v`.
pub open spec fn generation_of(v: u64) -> u64 {
    (v >> 24u64) & 0xFF_FFFFu64
}

/// The 24 bits of the slot index inside `v`.
pub open spec fn index_of(v: u64) -> u64 {
    v & 0xFF_FFFFu64
}

/// The value that packs the given fields, with the reserved bits clear.
pub open spec fn packed(is_coroutine: bool, manager_index: u64, user_bits: u64, generation: u64, index: u64) -> u64 {
    (if is_coroutine { 1u64 } else { 0u64 }) << 63u64
        | manager_index << 52u64
        | user_bits << 48u64
        | generation << 24u64
        | index
}

/// Index of a coroutine manager, as stored in a handle.
#[derive(Debug, Clone, Copy, PartialEq, Eq, Structural)]
pub struct CoroutineManagerIndex(pub u8);

/// Four bits of a handle that an application may use as it likes.
#[derive(Debug, Clone, Copy, PartialEq, Eq, Structural)]
pub struct UserBits(u8);

impl UserBits {
    #[verifier::type_invariant]
    spec fn fits(&self) -> bool {
        self.0 < 16
    }

    /// The value of the four bits.
    pub closed spec fn value(self) -> u8 {
        self.0
    }

    /// All four bits clear.
    pub fn zero() -> (r: Self)
        ensures
            r.value() == 0,
    {
        UserBits(0)
    }

    /// Accepts a value that fits in four bits.
    pub fn try_from(four_bits: u8) -> (r: Result<Self, ()>)
        ensures
            four_bits < 16 <==> r.is_ok(),
            r matches Ok(u) ==> u.value() == four_bits,
    {
        if four_bits < USER_BITS_LIMIT {
            Ok(UserBits(four_bits))
        } else {
            Err(())
        }
    }

    /// The value of the four bits.
    pub fn into(self) -> (r: u8)
        ensures
            r == self.value(),
            r < 16,
    {
        proof {
            use_type_invariant(self);
        }
        self.0
    }
}

/// Generation of a slab slot: a counter modulo `2^24`.
#[derive(Debug, Clone, Copy, PartialEq, Eq, Structural)]
pub struct CoroutineGenerationCounter(u32);

impl CoroutineGenerationCounter {
    #[verifier::type_invariant]
    spec fn fits(&self) -> bool {
        self.0 < 0x100_0000
    }

    /// The value of the counter.
    pub closed spec fn value(self) -> u32 {
        self.0
    }

    /// The first generation of every slot.
    pub fn initial() -> (r: Self)
        ensures
            r.value() == 0,
    {
        CoroutineGenerationCounter(0)
    }

    /// Accepts a value below `2^24`.
    pub fn try_new(value: u32) -> (r: Option<Self>)
        ensures
            value < 0x100_0000 <==> r.is_some(),
            r matches Some(g) ==> g.value() == value,
    {
        if value < GENERATION_LIMIT {
            Some(CoroutineGenerationCounter(value))
        } else {
            None
        }
    }

    /// The value of the counter.
    pub fn get(self) -> (r: u32)
        ensures
            r == self.value(),
            r < 0x100_0000,
    {
        proof {
            use_type_invariant(self);
        }
        self.0
    }

    /// The generation that follows this one, modulo `2^24`.
    pub fn next(self) -> (r: Self)
        ensures
            r.value() == (self.value() + 1) % 0x100_0000,
    {
        proof {
            use_type_invariant(self);
        }
        if self.0 + 1 == GENERATION_LIMIT {
            CoroutineGenerationCounter(0)
        } else {
            CoroutineGenerationCounter(self.0 + 1)
        }
    }

    /// Advances the counter by one, modulo `2^24`.
    pub fn increment(&mut self)
        ensures
            final(self).value() == (old(self).value() + 1) % 0x100_0000,
    {
        *self = self.next();
    }
}

/// A 64-bit token naming one coroutine instance, safe to keep in a kernel
/// user-data field and to hand back later.
#[derive(Debug, Clone, Copy, PartialEq, Eq, Structural)]
pub struct CoroutineInstanceHandle(u64);

impl View for CoroutineInstanceHandle {
    type V = u64;

    closed spec fn view(&self) -> u64 {
        self.0
    }
}

/// Reading each field back out of a packed value gives what was packed, and
/// the reserved bits stay clear.
pub proof fn lemma_packed_fields(is_coroutine: bool, manager_index: u64, user_bits: u64, generation: u64, index: u64)
    requires
        manager_index < 0x100,
        user_bits < 0x10,
        generation < 0x100_0000,
        index < 0x100_0000,
    ensures
        is_coroutine_of(packed(is_coroutine, manager_index, user_bits, generation, index)) == is_coroutine,
        manager_index_of(packed(is_coroutine, manager_index, user_bits, generation, index)) == manager_index,
        user_bits_of(packed(is_coroutine, manager_index, user_bits, generation, index)) == user_bits,
        reserved_bits_of(packed(is_coroutine, manager_index, user_bits, generation, index)) == 0,
        generation_of(packed(is_coroutine, manager_index, user_bits, generation, index)) == generation,
        index_of(packed(is_coroutine, manager_index, user_bits, generation, index)) == index,
{
    let c: u64 = if is_coroutine { 1u64 } else { 0u64 };
    assert(c <= 1);
    assert(is_coroutine_of(c << 63u64 | manager_index << 52u64 | user_bits << 48u64 | generation << 24u64 | index) == (c == 1)
        && manager_index_of(c << 63u64 | manager_index << 52u64 | user_bits << 48u64 | generation << 24u64 | index) == manager_index
        && user_bits_of(c << 63u64 | manager_index << 52u64 | user_bits << 48u64 | generation << 24u64 | index) == user_bits
        && reserved_bits_of(c << 63u64 | manager_index << 52u64 | user_bits << 48u64 | generation << 24u64 | index) == 0
        && generation_of(c << 63u64 | manager_index << 52u64 | user_bits << 48u64 | generation << 24u64 | index) == generation
        && index_of(c << 63u64 | manager_index << 52u64 | user_bits << 48u64 | generation << 24u64 | index) == index) by (bit_vector)
        requires
            c <= 1,
            manager_index < 0x100,
            user_bits < 0x10,
            generation < 0x100_0000,
            index < 0x100_0000,
    ;
}

impl CoroutineInstanceHandle {
    /// Takes back a value that was handed to epoll or io_uring as user data.
    pub fn wrap(user_data: u64) -> (r: Self)
        ensures
            r@ == user_data,
    {
        CoroutineInstanceHandle(user_data)
    }

    /// The value to hand to epoll or io_uring as user data.
    pub fn unwrap(self) -> (r: u64)
        ensures
            r == self@,
    {
        self.0
    }

    /// Packs the fields of a handle; the reserved bits are clear.
    pub fn new(
        is_coroutine: bool,
        coroutine_manager_index: CoroutineManagerIndex,
        user_bits: UserBits,
        generation: CoroutineGenerationCounter,
        index: u32,
    ) -> (r: Self)
        requires
            index < 0x100_0000,
        ensures
            r@ == packed(is_coroutine, coroutine_manager_index.0 as u64, user_bits.value() as u64, generation.value() as u64, index as u64),
            is_coroutine_of(r@) == is_coroutine,
            manager_index_of(r@) == coroutine_manager_index.0,
            user_bits_of(r@) == user_bits.value(),
            reserved_bits_of(r@) == 0,
            generation_of(r@) == generation.value(),
            index_of(r@) == index,
    {
        let is_coroutine_unshifted: u64 = if is_coroutine { 1 } else { 0 };
        let manager_index_unshifted: u64 = coroutine_manager_index.0 as u64;
        let user_bits_unshifted: u64 = user_bits.into() as u64;
        let generation_unshifted: u64 = generation.get() as u64;
        let index_unshifted: u64 = index as u64;
        proof {
            lemma_packed_fields(is_coroutine, manager_index_unshifted, user_bits_unshifted, generation_unshifted, index_unshifted);
        }
        CoroutineInstanceHandle(
            is_coroutine_unshifted << IS_COROUTINE_BIT_SHIFT
                | manager_index_unshifted << MANAGER_INDEX_BIT_SHIFT
                | user_bits_unshifted << USER_BITS_BIT_SHIFT
                | generation_unshifted << GENERATION_BIT_SHIFT
                | index_unshifted,
        )
    }

    /// Is `user_data` something other than a coroutine handle (its top bit is clear)?
    pub fn is_not_for_a_coroutine(user_data: u64) -> (r: bool)
        ensures
            r == !is_coroutine_of(user_data),
            r == (user_data < 0x8000_0000_0000_0000),
    {
        assert(((user_data >> 63u64) & 1u64 == 1u64) == (user_data >= 0x8000_0000_0000_0000)) by (bit_vector);
        (user_data >> IS_COROUTINE_BIT_SHIFT) & 1 != 1
    }

    /// Is the is-coroutine bit set?
    pub fn is_coroutine(self) -> (r: bool)
        ensures
            r == is_coroutine_of(self@),
    {
        (self.0 >> IS_COROUTINE_BIT_SHIFT) & 1 == 1
    }

    /// The manager index field.
    pub fn coroutine_manager_index(self) -> (r: CoroutineManagerIndex)
        ensures
            r.0 == manager_index_of(self@),
    {
        let v: u64 = self.0;
        assert((v >> 52u64) & 0xFFu64 <= 0xFF) by (bit_vector);
        CoroutineManagerIndex(((v >> MANAGER_INDEX_BIT_SHIFT) & 0xFF) as u8)
    }

    /// The user bits field.
    pub fn user_bits(self) -> (r: UserBits)
        ensures
            r.value() == user_bits_of(self@),
    {
        let v: u64 = self.0;
        assert((v >> 48u64) & 0xFu64 <= 0xF) by (bit_vector);
        UserBits(((v >> USER_BITS_BIT_SHIFT) & 0xF) as u8)
    }

    /// The same handle with its user bits replaced; every other bit is kept.
    pub fn set_user_bits(self, user_bits: UserBits) -> (r: Self)
        ensures
            user_bits_of(r@) == user_bits.value(),
            is_coroutine_of(r@) == is_coroutine_of(self@),
            reserved_bits_of(r@) == reserved_bits_of(self@),
            manager_index_of(r@) == manager_index_of(self@),
            generation_of(r@) == generation_of(self@),
            index_of(r@) == index_of(self@),
    {
        let v: u64 = self.0;
        let u: u64 = user_bits.into() as u64;
        let mask: u64 = 0xF << USER_BITS_BIT_SHIFT;
        let w: u64 = (v & !mask) | (u << USER_BITS_BIT_SHIFT);
        assert(mask == 0xF_0000_0000_0000u64) by (bit_vector)
            requires
                mask == 0xFu64 << 48u64,
        ;
        assert(user_bits_of(w) == u
            && is_coroutine_of(w) == is_coroutine_of(v)
            && reserved_bits_of(w) == reserved_bits_of(v)
            && manager_index_of(w) == manager_index_of(v)
            && generation_of(w) == generation_of(v)
            && index_of(w) == index_of(v)) by (bit_vector)
            requires
                u < 16,
                w == (v & !0xF_0000_0000_0000u64) | (u << 48u64),
        ;
        CoroutineInstanceHandle(w)
    }

    /// The generation field.
    pub fn generation(self) -> (r: CoroutineGenerationCounter)
        ensures
            r.value() == generation_of(self@),
    {
        let v: u64 = self.0;
        assert((v >> 24u64) & 0xFF_FFFFu64 < 0x100_0000) by (bit_vector);
        CoroutineGenerationCounter(((v >> GENERATION_BIT_SHIFT) & 0xFF_FFFF) as u32)
    }

    /// The slot index field.
    pub fn index(self) -> (r: u32)
        ensures
            r == index_of(self@),
            r < 0x100_0000,
    {
        let v: u64 = self.0;
        assert(v & 0xFF_FFFFu64 < 0x100_0000) by (bit_vector);
        (v & 0xFF_FFFF) as u32
    }

    /// Offset in bytes of the slot from the start of the slab.
    pub fn relative_pointer(self, element_size: usize) -> (r: usize)
        requires
            index_of(self@) * element_size <= usize::MAX,
        ensures
            r == index_of(self@) * element_size,
    {
        let i: u32 = self.index();
        (i as usize) * element_size
    }

    /// Address of the slot, from the address of the start of the slab.
    pub fn into_absolute_pointer(self, base_pointer: usize, element_size: usize) -> (r: usize)
        requires
            base_pointer + index_of(self@) * element_size <= usize::MAX,
        ensures
            r == base_pointer + index_of(self@) * element_size,
    {
        proof {
            assert(index_of(self@) * element_size <= usize::MAX) by (nonlinear_arith)
                requires
                    base_pointer + index_of(self@) * element_size <= usize::MAX,
                    base_pointer >= 0,
            ;
        }
        base_pointer + self.relative_pointer(element_size)
    }

    /// Index of the slot at address `larger` in a slab that starts at `smaller`.
    pub fn calculate_index(larger: usize, smaller: usize, element_size: usize) -> (r: u64)
        requires
            larger >= smaller,
            element_size > 0,
        ensures
            r == (larger - smaller) as int / element_size as int,
    {
        let difference: usize = larger - smaller;
        (difference / element_size) as u64
    }
}

} // verus!
