//! Pooled-stake escrow for a multiplayer competition: participants pay a fixed
//! entry fee into a shared pool, an authority starts and ends the competition,
//! and on completion the pool is split between ranked winners and the operator.
//!
//! The library holds the state machine and the settlement arithmetic; moving
//! funds, reading the clock and storing records are left to the host, whose
//! outcomes the transitions take as arguments.

pub mod identity;
pub mod state;
pub mod settlement;
pub mod membership;
pub mod registry;
pub mod laws;
