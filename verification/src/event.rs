//! Combat events, returned as plain values.
//!
//! The simulation emits a line-oriented stream of events: round boundaries,
//! attack notices, health updates and defeat notices. The library builds them
//! as values in emission order; whoever runs the simulation decides what to do
//! with them (typically: print one line each).

use vstd::prelude::*;

verus! {

/// The closed set of combatant kinds.
#[derive(Clone, Copy, Debug, PartialEq, Eq, Structural)]
pub enum EntityKind {
    Goblin,
    Orc,
    Building,
}

/// One observable step of the simulation, in emission order:
/// a round boundary, then an attack notice, then the defender's state changes.
#[derive(Clone, Copy, Debug, PartialEq, Eq, Structural)]
pub enum Event {
    /// A new round begins.
    RoundStart { round: u32 },
    /// The attacker is defeated and cannot act; nothing else happens.
    CannotAct { attacker: EntityKind },
    /// The attacker strikes; a damage application on the target follows.
    Struck { attacker: EntityKind },
    /// The target was hit while already defeated; its health stays at zero.
    AlreadyDefeated { target: EntityKind },
    /// The target took damage; `health` is its health after clamping.
    Damaged { target: EntityKind, health: i32 },
    /// The damage just applied drove the target's health to exactly zero.
    Defeated { target: EntityKind },
}

} // verus!
