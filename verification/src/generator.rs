//! The executable generator.

use crate::model::{
    seeded_entry, seeded_table, GeneratorState, CMWC_CYCLE, COMPLEMENT, INITIAL_CARRY,
    MULTIPLIER, PHI,
};
use vstd::prelude::*;

verus! {

/// A complementary-multiply-with-carry generator.
///
/// Its state is reached only through [`new`](Self::new),
/// [`reset`](Self::reset) and [`random`](Self::random), so the cursor always
/// points into the table.
pub struct ComplementaryMultiplyWithCarryGen {
    q: [u32; CMWC_CYCLE],
    c: u32,
    i: usize,
}

impl View for ComplementaryMultiplyWithCarryGen {
    type V = GeneratorState;

    closed spec fn view(&self) -> GeneratorState {
        GeneratorState { table: self.q@, carry: self.c, cursor: self.i as nat }
    }
}

impl ComplementaryMultiplyWithCarryGen {
    #[verifier::type_invariant]
    spec fn cursor_in_table(self) -> bool {
        self.i < CMWC_CYCLE
    }

    /// A generator seeded with `seed`. Every seed is accepted, and the state
    /// depends on nothing but the seed.
    pub fn new(seed: u32) -> (generator: ComplementaryMultiplyWithCarryGen)
        ensures
            generator@ == GeneratorState::seeded(seed),
            generator@.valid(),
    {
        let mut q: [u32; CMWC_CYCLE] = [0; CMWC_CYCLE];

        q[0] = seed;
        q[1] = seed.wrapping_add(PHI);
        q[2] = seed.wrapping_add(PHI).wrapping_add(PHI);

        for i in 3..CMWC_CYCLE
            invariant
                forall|k: int| 0 <= k < i ==> q@[k] == seeded_entry(seed, k as nat),
        {
            q[i] = q[i - 3] ^ q[i - 2] ^ PHI ^ seed;
        }

        assert(q@ =~= seeded_table(seed));
        ComplementaryMultiplyWithCarryGen { q, c: INITIAL_CARRY, i: CMWC_CYCLE - 1 }
    }

    /// Replaces the whole state by that of a generator seeded with `seed`,
    /// whatever was drawn before.
    pub fn reset(&mut self, seed: u32)
        ensures
            final(self)@ == old(self)@.reseed(seed),
            final(self)@ == GeneratorState::seeded(seed),
            final(self)@.valid(),
    {
        *self = ComplementaryMultiplyWithCarryGen::new(seed);
    }

    /// Draws the next word and advances the state by one step.
    pub fn random(&mut self) -> (word: u32)
        ensures
            final(self)@ == old(self)@.step(),
            word == old(self)@.output(),
            word == final(self)@.table[final(self)@.cursor as int],
            final(self)@.valid(),
    {
        proof {
            use_type_invariant(&*self);
        }
        let advanced: usize = self.i + 1;
        assert(advanced & 4095 == advanced % 4096) by (bit_vector);
        self.i = advanced & (CMWC_CYCLE - 1);
        let t: u64 = MULTIPLIER * (self.q[self.i] as u64) + (self.c as u64);
        assert(t >> 32 == t / 0x1_0000_0000) by (bit_vector);

        self.c = (t >> 32) as u32;
        let folded: u64 = t + self.c as u64;
        assert(folded as u32 == folded % 0x1_0000_0000) by (bit_vector);
        let mut x: u32 = #[verifier::truncate] (folded as u32);
        if x < self.c {
            x += 1;
            self.c += 1;
        }

        self.q[self.i] = COMPLEMENT.wrapping_sub(x);
        self.q[self.i]
    }

    /// The lag table.
    pub fn table(&self) -> (table: &[u32; CMWC_CYCLE])
        ensures
            table@ == self@.table,
    {
        &self.q
    }

    /// The carry that the last draw left; the initial carry before any draw.
    pub fn carry(&self) -> (carry: u32)
        ensures
            carry == self@.carry,
    {
        self.c
    }

    /// Index of the entry that the last draw wrote, always inside the table;
    /// the last index before any draw.
    pub fn cursor(&self) -> (cursor: usize)
        ensures
            cursor == self@.cursor,
            cursor < CMWC_CYCLE,
            self@.valid(),
    {
        proof {
            use_type_invariant(self);
        }
        self.i
    }

    /// The view leaves nothing out: generators with equal views are equal.
    pub proof fn lemma_view_is_whole_state(self, other: ComplementaryMultiplyWithCarryGen)
        requires
            self@ == other@,
        ensures
            self == other,
    {
        assert(self.q =~= other.q);
    }
}

} // verus!
