//! A complementary-multiply-with-carry generator of 32-bit words.
//!
//! The generator keeps a lag table of 4096 words, a carry and a cursor. Its
//! output is a function of the seed alone: equal seeds give equal streams, on
//! every machine and in every process.
//!
//! * [`model`] is the mathematical description: what a seeded state is and
//!   what one draw does to a state.
//! * [`generator`] is the executable generator, proved against the model.
//! * [`laws`] states what follows, for single draws and for whole streams.

pub mod generator;
pub mod laws;
pub mod model;

pub use generator::ComplementaryMultiplyWithCarryGen;
pub use model::GeneratorState;
pub use model::{
    BASE, CMWC_CYCLE, COMPLEMENT, DEFAULT_SEED, INITIAL_CARRY, MULTIPLIER, PHI, UNIFORM_DIVISOR,
};
