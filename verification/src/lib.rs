//! A minimal turn-based combat simulation.
//!
//! A fixed set of combatant entities exchange damage over a bounded number of
//! rounds. The core pieces are the attack contract (an attacker-capable entity
//! delivers its fixed damage to any defense-capable target), the
//! damage-application rule that clamps health at zero, and a round driver that
//! pairs a random attacker with a random defender each round.
//!
//! Policy choices, stated once: a defeated entity (health 0) neither initiates
//! attacks nor has its health mutated further; an attack on an already-defeated
//! target reports it as already defeated and leaves it untouched. Events are
//! returned as values; printing them is the caller's business.

use vstd::prelude::*;

pub mod driver;
pub mod entity;
pub mod event;

pub use driver::{run_round, run_rounds, World};
pub use entity::{Building, CanHit, CanTakeHit, Goblin, Orc};
pub use event::{EntityKind, Event};

verus! {

/// Health left after one damage application: damage is subtracted and the
/// result clamped at zero, so health never goes negative.
pub open spec fn clamped(health: int, damage: int) -> int {
    if health - damage > 0 {
        health - damage
    } else {
        0
    }
}

} // verus!
