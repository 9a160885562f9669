//! Combat-and-progression core of a turn-based role-playing game.
//!
//! Given a player ("hero") and a procedurally generated opponent, the library
//! resolves multi-round battles deterministically from a seed, tracks hero
//! progression (health, consumables, win streaks) and computes economic
//! rewards. The external ledger (token mint/transfer/burn/freeze), the
//! verifiable-randomness beacon and the attribute store are collaborators:
//! their readings enter as plain values (entropy words, attribute bytes, gold
//! balances) and the decisions leave as explicit instruction and event lists
//! for the host to execute.

pub mod codec;
pub mod effects;
pub mod game;
pub mod random;
pub mod types;
