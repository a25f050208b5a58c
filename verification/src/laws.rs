//! What holds of every state and of whole streams of draws.

use crate::model::{
    word_range, wrap_word, GeneratorState, BASE, CMWC_CYCLE, COMPLEMENT, MULTIPLIER,
    UNIFORM_DIVISOR,
};
use vstd::prelude::*;

verus! {

/// A seeded state is valid, for every seed.
pub proof fn lemma_seeded_is_valid(seed: u32)
    ensures
        GeneratorState::seeded(seed).valid(),
{
}

/// A draw keeps a valid state valid: the table keeps its length and the
/// cursor stays inside it. It writes the entry under the new cursor and no
/// other.
pub proof fn lemma_step_keeps_valid(state: GeneratorState)
    requires
        state.valid(),
    ensures
        state.step().valid(),
        state.step().cursor == (state.cursor + 1) % (CMWC_CYCLE as nat),
        state.step().table[state.step().cursor as int] == state.output(),
        forall|j: int|
            0 <= j < CMWC_CYCLE && j != state.step().cursor ==> state.step().table[j]
                == state.table[j],
{
}

/// Any number of draws keeps a valid state valid.
pub proof fn lemma_after_keeps_valid(state: GeneratorState, n: nat)
    requires
        state.valid(),
    ensures
        state.after(n).valid(),
    decreases n,
{
    if n > 0 {
        lemma_after_keeps_valid(state, (n - 1) as nat);
        lemma_step_keeps_valid(state.after((n - 1) as nat));
    }
}

/// The recurrence of the generator: new carry and residue are a quotient and
/// a remainder of `total` by `BASE`, the remainder taken lazily (it may
/// equal `BASE`). The new carry never exceeds the multiplier, and the word
/// drawn and the residue add up to `COMPLEMENT` modulo `2^32`.
pub proof fn lemma_step_recurrence(state: GeneratorState)
    ensures
        state.next_carry() * BASE + state.residue() == state.total(),
        state.residue() <= BASE,
        state.next_carry() <= MULTIPLIER,
        wrap_word(state.output() + state.residue()) == COMPLEMENT,
{
}

/// The step in machine words. With `high` the high word of `total` and `sum`
/// the low word of `total + high`, the sum of the two words of `total` has
/// overflowed exactly when `sum < high`; the residue is then `sum + 1` and the
/// carry `high + 1`, and otherwise they are `sum` and `high`. The word drawn
/// is `COMPLEMENT - residue`, or `2^32 - 1` where the residue is `2^32 - 1`.
pub proof fn lemma_step_in_machine_words(state: GeneratorState)
    ensures
        ({
            let high = state.total() / word_range();
            let sum = (state.total() + high) % word_range();
            &&& 0 <= state.total() < 0x1_0000_0000_0000_0000
            &&& 0 <= high <= MULTIPLIER
            &&& sum < high <==> state.folded() >= word_range()
            &&& state.residue() == if sum < high { sum + 1 } else { sum }
            &&& state.next_carry() == if sum < high { high + 1 } else { high }
            &&& state.output() == if state.residue() <= COMPLEMENT {
                COMPLEMENT - state.residue()
            } else {
                0xffff_ffff
            }
        }),
{
}

/// Draws can be counted in one run or in two: `m + n` draws are `m` draws
/// and then `n` more.
pub proof fn lemma_after_adds(state: GeneratorState, m: nat, n: nat)
    ensures
        state.after(m + n) == state.after(m).after(n),
        state.nth_output(m + n) == state.after(m).nth_output(n),
    decreases n,
{
    if n > 0 {
        lemma_after_adds(state, m, (n - 1) as nat);
        assert((m + n - 1) as nat == m + (n - 1) as nat);
    }
}

/// Reseeding forgets the past: whatever state a generator was in, after it
/// is reseeded it holds the state of a new generator with that seed, and its
/// next `n` draws are the first `n` draws of such a generator.
pub proof fn lemma_reseed_forgets_history(before: GeneratorState, seed: u32, n: nat)
    ensures
        before.reseed(seed) == GeneratorState::seeded(seed),
        before.reseed(seed).after(n) == GeneratorState::seeded(seed).after(n),
        before.reseed(seed).outputs(n) == GeneratorState::seeded(seed).outputs(n),
{
}

/// Reseeding twice with one seed is reseeding once.
pub proof fn lemma_reseed_idempotent(before: GeneratorState, seed: u32)
    ensures
        before.reseed(seed).reseed(seed) == before.reseed(seed),
{
}

/// Two generators seeded alike draw alike: after equal numbers of draws they
/// hold equal states and have returned equal words.
pub proof fn lemma_equal_seeds_equal_streams(
    first: GeneratorState,
    second: GeneratorState,
    seed: u32,
    n: nat,
)
    requires
        first == GeneratorState::seeded(seed),
        second == GeneratorState::seeded(seed),
    ensures
        first.after(n) == second.after(n),
        first.outputs(n) == second.outputs(n),
        forall|k: nat| k < n ==> first.nth_output(k) == second.nth_output(k),
{
}

/// The words of a stream are those of its draws, one by one.
pub proof fn lemma_outputs_are_draws(state: GeneratorState, n: nat)
    ensures
        state.outputs(n).len() == n,
        forall|k: int| 0 <= k < n ==> state.outputs(n)[k] == state.after(k as nat).output(),
{
}

/// A draw is at most `UNIFORM_DIVISOR`, which is positive: the quotient of
/// the two lies between 0 and 1, both included.
pub proof fn lemma_draw_at_most_divisor(state: GeneratorState)
    ensures
        0 <= state.output() <= UNIFORM_DIVISOR,
        0 < UNIFORM_DIVISOR,
{
}

} // verus!
