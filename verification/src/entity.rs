//! Combatant entities and the attack / defense contracts.
//!
//! Three concrete kinds: the goblin (light, fast, low damage), the orc (heavy,
//! slow, tougher, higher damage) and the building (defense-only, never acts).
//! Damage application clamps health at zero; an entity whose health reaches
//! zero is defeated, a terminal state: it takes no further damage and, if it
//! can attack, it no longer initiates attacks.

use vstd::prelude::*;

use crate::clamped;
use crate::event::{EntityKind, Event};

verus! {

/// Health left after an attacker with the given health and damage strikes a
/// target at `target_health`: a defeated attacker changes nothing; otherwise
/// the damage is applied and the result clamped at zero.
pub open spec fn hit_health(attacker_health: int, damage: int, target_health: int) -> int {
    if attacker_health == 0 {
        target_health
    } else {
        clamped(target_health, damage)
    }
}

/// The events one damage application on a defender emits: a notice that it was
/// already defeated (and untouched), or its new health, followed by a defeat
/// notice when that health just reached zero.
pub open spec fn take_hit_events(target: EntityKind, health: int, damage: int) -> Seq<Event> {
    if health == 0 {
        seq![Event::AlreadyDefeated { target }]
    } else if clamped(health, damage) == 0 {
        seq![
            Event::Damaged { target, health: 0i32 },
            Event::Defeated { target },
        ]
    } else {
        seq![Event::Damaged { target, health: clamped(health, damage) as i32 }]
    }
}

/// The events one attack emits: a defeated attacker only reports that it
/// cannot act; otherwise a strike notice precedes the defender's own events.
pub open spec fn hit_events(
    attacker: EntityKind,
    attacker_health: int,
    damage: int,
    target: EntityKind,
    target_health: int,
) -> Seq<Event> {
    if attacker_health == 0 {
        seq![Event::CannotAct { attacker }]
    } else {
        seq![Event::Struck { attacker }] + take_hit_events(target, target_health, damage)
    }
}

/// Health left after a whole sequence of damage applications, each one
/// subtracted and clamped at zero in turn, as `take_hit` does.
pub open spec fn health_after_hits(health: int, damages: Seq<int>) -> int
    decreases damages.len(),
{
    if damages.len() == 0 {
        health
    } else {
        health_after_hits(clamped(health, damages[0]), damages.drop_first())
    }
}

/// Law: for every starting health and every sequence of damage applications,
/// health is never negative afterwards — clamping holds under any history.
pub proof fn lemma_health_never_negative(health: int, damages: Seq<int>)
    requires
        health >= 0,
    ensures
        health_after_hits(health, damages) >= 0,
    decreases damages.len(),
{
    if damages.len() > 0 {
        lemma_health_never_negative(clamped(health, damages[0]), damages.drop_first());
    }
}

/// The defense capability: an entity that can receive damage.
pub trait CanTakeHit: Sized {
    /// Current health, as a mathematical integer.
    spec fn health(&self) -> int;

    /// Which concrete kind this entity is.
    spec fn kind(&self) -> EntityKind;

    /// The entity's invariant: health is never negative, and whatever stats it
    /// carries besides health are in range.
    spec fn wf(&self) -> bool;

    /// Holds when `post` differs from `pre` in at most its health: every other
    /// attribute (a damage stat, for entities that have one) is unchanged.
    spec fn only_health_changed(pre: Self, post: Self) -> bool;

    /// A well-formed entity never has negative health.
    proof fn health_nonneg(&self)
        requires
            self.wf(),
        ensures
            self.health() >= 0,
    ;

    /// Receive one damage application: subtract `damage` from health, clamped
    /// at zero. A target that is already defeated is left untouched and only
    /// reports so. Returns the emitted events.
    fn take_hit(&mut self, damage: i32) -> (events: Vec<Event>)
        requires
            damage >= 0,
            old(self).wf(),
        ensures
            final(self).wf(),
            final(self).health() >= 0,
            final(self).health() == clamped(old(self).health(), damage as int),
            final(self).kind() == old(self).kind(),
            Self::only_health_changed(*old(self), *final(self)),
            events@ == take_hit_events(old(self).kind(), old(self).health(), damage as int),
    ;
}

/// The attack capability: an entity that can deliver its fixed damage to any
/// defense-capable target. Every attacker can also take hits.
pub trait CanHit: CanTakeHit {
    /// The fixed damage this entity deals, as a mathematical integer.
    spec fn damage(&self) -> int;

    /// Strike `target` with this entity's fixed damage. A defeated attacker
    /// cannot act: it changes no target. Returns the emitted events.
    fn hit<T: CanTakeHit>(&self, target: &mut T) -> (events: Vec<Event>)
        requires
            self.wf(),
            old(target).wf(),
        ensures
            final(target).wf(),
            final(target).health() >= 0,
            final(target).health() == hit_health(self.health(), self.damage(), old(target).health()),
            self.health() == 0 ==> *final(target) == *old(target),
            final(target).kind() == old(target).kind(),
            self.health() != 0 ==> T::only_health_changed(*old(target), *final(target)),
            events@ == hit_events(
                self.kind(), self.health(), self.damage(),
                old(target).kind(), old(target).health(),
            ),
    ;
}

/// The light, fast attacker-capable unit: high health, low damage.
#[derive(Clone, Copy, Debug, PartialEq, Eq, Structural)]
pub struct Goblin {
    pub health: i32,
    pub damage: i32,
}

impl Goblin {
    /// A fresh goblin: health 10, damage 2.
    pub fn new() -> (g: Goblin)
        ensures
            g.health == 10,
            g.damage == 2,
            g.wf(),
    {
        Goblin { health: 10, damage: 2 }
    }
}

impl CanTakeHit for Goblin {
    open spec fn health(&self) -> int {
        self.health as int
    }

    open spec fn kind(&self) -> EntityKind {
        EntityKind::Goblin
    }

    open spec fn wf(&self) -> bool {
        self.health >= 0 && self.damage > 0
    }

    open spec fn only_health_changed(pre: Goblin, post: Goblin) -> bool {
        post.damage == pre.damage
    }

    proof fn health_nonneg(&self) {
    }

    fn take_hit(&mut self, damage: i32) -> (events: Vec<Event>) {
        let mut events: Vec<Event> = Vec::new();
        if self.health == 0 {
            events.push(Event::AlreadyDefeated { target: EntityKind::Goblin });
            return events;
        }
        self.health = if self.health > damage {
            self.health - damage
        } else {
            0
        };
        events.push(Event::Damaged { target: EntityKind::Goblin, health: self.health });
        if self.health == 0 {
            events.push(Event::Defeated { target: EntityKind::Goblin });
        }
        events
    }
}

impl CanHit for Goblin {
    open spec fn damage(&self) -> int {
        self.damage as int
    }

    fn hit<T: CanTakeHit>(&self, target: &mut T) -> (events: Vec<Event>) {
        proof {
            target.health_nonneg();
        }
        let mut events: Vec<Event> = Vec::new();
        if self.health == 0 {
            events.push(Event::CannotAct { attacker: EntityKind::Goblin });
            return events;
        }
        events.push(Event::Struck { attacker: EntityKind::Goblin });
        let mut rest = target.take_hit(self.damage);
        events.append(&mut rest);
        events
    }
}

/// The heavy, slow attacker-capable unit: lower health, higher damage.
#[derive(Clone, Copy, Debug, PartialEq, Eq, Structural)]
pub struct Orc {
    pub health: i32,
    pub damage: i32,
}

impl Orc {
    /// A fresh orc: health 6, damage 3.
    pub fn new() -> (o: Orc)
        ensures
            o.health == 6,
            o.damage == 3,
            o.wf(),
    {
        Orc { health: 6, damage: 3 }
    }
}

impl CanTakeHit for Orc {
    open spec fn health(&self) -> int {
        self.health as int
    }

    open spec fn kind(&self) -> EntityKind {
        EntityKind::Orc
    }

    open spec fn wf(&self) -> bool {
        self.health >= 0 && self.damage > 0
    }

    open spec fn only_health_changed(pre: Orc, post: Orc) -> bool {
        post.damage == pre.damage
    }

    proof fn health_nonneg(&self) {
    }

    fn take_hit(&mut self, damage: i32) -> (events: Vec<Event>) {
        let mut events: Vec<Event> = Vec::new();
        if self.health == 0 {
            events.push(Event::AlreadyDefeated { target: EntityKind::Orc });
            return events;
        }
        self.health = if self.health > damage {
            self.health - damage
        } else {
            0
        };
        events.push(Event::Damaged { target: EntityKind::Orc, health: self.health });
        if self.health == 0 {
            events.push(Event::Defeated { target: EntityKind::Orc });
        }
        events
    }
}

impl CanHit for Orc {
    open spec fn damage(&self) -> int {
        self.damage as int
    }

    fn hit<T: CanTakeHit>(&self, target: &mut T) -> (events: Vec<Event>) {
        proof {
            target.health_nonneg();
        }
        let mut events: Vec<Event> = Vec::new();
        if self.health == 0 {
            events.push(Event::CannotAct { attacker: EntityKind::Orc });
            return events;
        }
        events.push(Event::Struck { attacker: EntityKind::Orc });
        let mut rest = target.take_hit(self.damage);
        events.append(&mut rest);
        events
    }
}

/// The defense-only structure: it has health and takes hits, but never
/// initiates an attack and deals no damage.
#[derive(Clone, Copy, Debug, PartialEq, Eq, Structural)]
pub struct Building {
    pub health: i32,
}

impl Building {
    /// A fresh building: health 15.
    pub fn new() -> (b: Building)
        ensures
            b.health == 15,
            b.wf(),
    {
        Building { health: 15 }
    }
}

impl CanTakeHit for Building {
    open spec fn health(&self) -> int {
        self.health as int
    }

    open spec fn kind(&self) -> EntityKind {
        EntityKind::Building
    }

    open spec fn wf(&self) -> bool {
        self.health >= 0
    }

    open spec fn only_health_changed(pre: Building, post: Building) -> bool {
        true
    }

    proof fn health_nonneg(&self) {
    }

    fn take_hit(&mut self, damage: i32) -> (events: Vec<Event>) {
        let mut events: Vec<Event> = Vec::new();
        if self.health == 0 {
            events.push(Event::AlreadyDefeated { target: EntityKind::Building });
            return events;
        }
        self.health = if self.health > damage {
            self.health - damage
        } else {
            0
        };
        events.push(Event::Damaged { target: EntityKind::Building, health: self.health });
        if self.health == 0 {
            events.push(Event::Defeated { target: EntityKind::Building });
        }
        events
    }
}

} // verus!
