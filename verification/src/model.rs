//! The mathematical model of the generator.
//!
//! A state is a lag table of [`CMWC_CYCLE`] words, a carry and a cursor. All
//! of it is stated over `int`, `nat` and `Seq`, with no machine arithmetic:
//! wrapping is written as a remainder, the split of a product into its high
//! and low word as a quotient and a remainder.

use vstd::prelude::*;

verus! {

/// Number of words in the lag table.
pub const CMWC_CYCLE: usize = 4096;

/// Mixing constant of the seeding.
pub const PHI: u32 = 0x9e3779b9;

/// Carry of a freshly seeded generator.
pub const INITIAL_CARRY: u32 = 362436;

/// The multiplier of the recurrence.
pub const MULTIPLIER: u64 = 18782;

/// The base of the recurrence, `2^32 - 1`.
pub const BASE: u64 = 0xffff_ffff;

/// A draw is this constant minus the residue of the recurrence, `BASE - 1`.
pub const COMPLEMENT: u32 = 0xffff_fffe;

/// Seed of a generator that was never seeded explicitly.
pub const DEFAULT_SEED: u32 = 0;

/// A draw divided by this constant is the uniform variate in `[0, 1]`.
pub const UNIFORM_DIVISOR: u32 = 0xffff_ffff;

/// `2^32`, the number of values of a word.
pub open spec fn word_range() -> int {
    0x1_0000_0000
}

/// The word that `x` wraps to: its remainder modulo `2^32`.
pub open spec fn wrap_word(x: int) -> u32 {
    (x % word_range()) as u32
}

/// The cursor that follows `cursor`, around the table.
pub open spec fn next_cursor(cursor: nat) -> nat {
    (cursor + 1) % (CMWC_CYCLE as nat)
}

/// Entry `i` of the lag table that `seed` gives.
///
/// The first three entries are `seed`, `seed + PHI` and `seed + 2 * PHI`,
/// wrapped to a word. Every later entry mixes the entries three and two
/// places before it with `PHI` and the seed.
pub open spec fn seeded_entry(seed: u32, i: nat) -> u32
    decreases i,
{
    if i == 0 {
        seed
    } else if i == 1 {
        wrap_word(seed + PHI)
    } else if i == 2 {
        wrap_word(seed + 2 * PHI)
    } else {
        seeded_entry(seed, (i - 3) as nat) ^ seeded_entry(seed, (i - 2) as nat) ^ PHI ^ seed
    }
}

/// The lag table that `seed` gives.
pub open spec fn seeded_table(seed: u32) -> Seq<u32> {
    Seq::new(CMWC_CYCLE as nat, |i: int| seeded_entry(seed, i as nat))
}

/// What a generator holds.
pub struct GeneratorState {
    /// The lag table.
    pub table: Seq<u32>,
    /// The carry that the last draw left.
    pub carry: u32,
    /// Index of the entry that the last draw wrote.
    pub cursor: nat,
}

impl GeneratorState {
    /// The table has its full length and the cursor points into it.
    pub open spec fn valid(self) -> bool {
        &&& self.table.len() == CMWC_CYCLE
        &&& self.cursor < CMWC_CYCLE
    }

    /// The state of a generator seeded with `seed`, before any draw.
    pub open spec fn seeded(seed: u32) -> GeneratorState {
        GeneratorState {
            table: seeded_table(seed),
            carry: INITIAL_CARRY,
            cursor: (CMWC_CYCLE - 1) as nat,
        }
    }

    /// The state after reseeding with `seed`: the seeded state, whatever
    /// `self` was.
    pub open spec fn reseed(self, seed: u32) -> GeneratorState {
        GeneratorState::seeded(seed)
    }

    /// Index of the entry that the next draw reads and replaces.
    pub open spec fn target(self) -> nat {
        next_cursor(self.cursor)
    }

    /// The sum that the next draw reduces: the multiplier times the entry at
    /// `target`, plus the carry.
    pub open spec fn total(self) -> int {
        MULTIPLIER * self.table[self.target() as int] + self.carry
    }

    /// High and low word of `total` added up.
    pub open spec fn folded(self) -> int {
        self.total() / word_range() + self.total() % word_range()
    }

    /// The carry after the next draw: the high word of `total`, and one more
    /// where `folded` does not fit a word.
    pub open spec fn next_carry(self) -> u32 {
        if self.folded() < word_range() {
            (self.total() / word_range()) as u32
        } else {
            (self.total() / word_range() + 1) as u32
        }
    }

    /// The residue of the next draw: `folded`, less `BASE` where it does not
    /// fit a word.
    pub open spec fn residue(self) -> u32 {
        if self.folded() < word_range() {
            self.folded() as u32
        } else {
            (self.folded() - BASE) as u32
        }
    }

    /// The word that the next draw returns: `COMPLEMENT` minus the residue,
    /// wrapped to a word.
    pub open spec fn output(self) -> u32 {
        wrap_word(COMPLEMENT - self.residue())
    }

    /// The state after the next draw: the cursor has moved on to `target`,
    /// the entry there holds the word drawn, and the carry is the new one.
    pub open spec fn step(self) -> GeneratorState {
        GeneratorState {
            table: self.table.update(self.target() as int, self.output()),
            carry: self.next_carry(),
            cursor: self.target(),
        }
    }

    /// The state after `n` draws.
    pub open spec fn after(self, n: nat) -> GeneratorState
        decreases n,
    {
        if n == 0 {
            self
        } else {
            self.after((n - 1) as nat).step()
        }
    }

    /// The word that draw number `k` returns, counted from 0.
    pub open spec fn nth_output(self, k: nat) -> u32 {
        self.after(k).output()
    }

    /// The words that the next `n` draws return, in order.
    pub open spec fn outputs(self, n: nat) -> Seq<u32> {
        Seq::new(n, |k: int| self.nth_output(k as nat))
    }
}

} // verus!
