//! The round driver: random attacker/defender pairing over a fixed round count.
//!
//! Each round picks one attacker-capable entity and one defense-capable target
//! uniformly at random, then resolves the attack. The driver always runs its
//! full round count; there is no early exit when everything is defeated.

use vstd::prelude::*;

use crate::entity::{hit_events, hit_health, Building, CanHit, CanTakeHit, Goblin, Orc};
use crate::event::{EntityKind, Event};

verus! {

/// The arena of combatants: one entity of each kind, mutated in place.
/// The attacker roster is (goblin, orc); each attacker's targets are the other
/// attacker and the building, since nothing strikes itself.
#[derive(Clone, Copy, Debug, PartialEq, Eq, Structural)]
pub struct World {
    pub goblin: Goblin,
    pub orc: Orc,
    pub building: Building,
}

impl World {
    /// Every combatant is well-formed.
    pub open spec fn wf(&self) -> bool {
        self.goblin.wf() && self.orc.wf() && self.building.wf()
    }
}

/// The world after one round resolved with the given choices: attacker 0 is
/// the goblin, attacker 1 the orc; defender 0 is the other attacker-capable
/// unit, defender 1 the building.
pub open spec fn world_after_round(w: World, attacker: int, defender: int) -> World {
    if attacker == 0 && defender == 0 {
        World {
            goblin: w.goblin,
            orc: Orc {
                health: hit_health(w.goblin.health as int, w.goblin.damage as int, w.orc.health as int) as i32,
                damage: w.orc.damage,
            },
            building: w.building,
        }
    } else if attacker == 0 {
        World {
            goblin: w.goblin,
            orc: w.orc,
            building: Building {
                health: hit_health(w.goblin.health as int, w.goblin.damage as int, w.building.health as int) as i32,
            },
        }
    } else if defender == 0 {
        World {
            goblin: Goblin {
                health: hit_health(w.orc.health as int, w.orc.damage as int, w.goblin.health as int) as i32,
                damage: w.goblin.damage,
            },
            orc: w.orc,
            building: w.building,
        }
    } else {
        World {
            goblin: w.goblin,
            orc: w.orc,
            building: Building {
                health: hit_health(w.orc.health as int, w.orc.damage as int, w.building.health as int) as i32,
            },
        }
    }
}

/// The events one round emits, for the same choices as `world_after_round`.
pub open spec fn round_events(w: World, attacker: int, defender: int) -> Seq<Event> {
    if attacker == 0 && defender == 0 {
        hit_events(EntityKind::Goblin, w.goblin.health as int, w.goblin.damage as int,
            EntityKind::Orc, w.orc.health as int)
    } else if attacker == 0 {
        hit_events(EntityKind::Goblin, w.goblin.health as int, w.goblin.damage as int,
            EntityKind::Building, w.building.health as int)
    } else if defender == 0 {
        hit_events(EntityKind::Orc, w.orc.health as int, w.orc.damage as int,
            EntityKind::Goblin, w.goblin.health as int)
    } else {
        hit_events(EntityKind::Orc, w.orc.health as int, w.orc.damage as int,
            EntityKind::Building, w.building.health as int)
    }
}

/// A sequence of per-round (attacker, defender) choices, each within the
/// two-entry rosters.
pub open spec fn valid_choices(choices: Seq<(int, int)>) -> bool {
    forall|i: int| 0 <= i < choices.len()
        ==> 0 <= (#[trigger] choices[i]).0 < 2 && 0 <= choices[i].1 < 2
}

/// The world after a whole sequence of rounds, resolved in order.
pub open spec fn world_after_rounds(w: World, choices: Seq<(int, int)>) -> World
    decreases choices.len(),
{
    if choices.len() == 0 {
        w
    } else {
        world_after_rounds(
            world_after_round(w, choices[0].0, choices[0].1),
            choices.drop_first(),
        )
    }
}

/// The events a whole sequence of rounds emits, in order: each round's
/// boundary marker (numbered from `start`), then that round's combat events.
pub open spec fn rounds_events(w: World, choices: Seq<(int, int)>, start: int) -> Seq<Event>
    decreases choices.len(),
{
    if choices.len() == 0 {
        Seq::empty()
    } else {
        seq![Event::RoundStart { round: start as u32 }]
            + round_events(w, choices[0].0, choices[0].1)
            + rounds_events(
                world_after_round(w, choices[0].0, choices[0].1),
                choices.drop_first(),
                start + 1,
            )
    }
}

proof fn lemma_world_after_rounds_snoc(w: World, choices: Seq<(int, int)>, c: (int, int))
    ensures
        world_after_rounds(w, choices.push(c))
            == world_after_round(world_after_rounds(w, choices), c.0, c.1),
    decreases choices.len(),
{
    let pc = choices.push(c);
    if choices.len() == 0 {
        assert(pc.drop_first() =~= choices);
        let w1 = world_after_round(w, c.0, c.1);
        assert(world_after_rounds(w1, choices) == w1);
    } else {
        assert(pc.drop_first() =~= choices.drop_first().push(c));
        let w1 = world_after_round(w, choices[0].0, choices[0].1);
        lemma_world_after_rounds_snoc(w1, choices.drop_first(), c);
        assert(world_after_rounds(w, pc) == world_after_rounds(w1, pc.drop_first()));
    }
}

proof fn lemma_rounds_events_snoc(w: World, choices: Seq<(int, int)>, c: (int, int), start: int)
    requires
        0 <= start,
        start + choices.len() <= u32::MAX,
    ensures
        rounds_events(w, choices.push(c), start) =~= rounds_events(w, choices, start)
            + seq![Event::RoundStart { round: (start + choices.len()) as u32 }]
            + round_events(world_after_rounds(w, choices), c.0, c.1),
    decreases choices.len(),
{
    let pc = choices.push(c);
    if choices.len() == 0 {
        assert(pc.drop_first() =~= choices);
        let w1 = world_after_round(w, c.0, c.1);
        assert(rounds_events(w1, choices, start + 1) == Seq::<Event>::empty());
    } else {
        assert(pc.drop_first() =~= choices.drop_first().push(c));
        let w1 = world_after_round(w, choices[0].0, choices[0].1);
        lemma_rounds_events_snoc(w1, choices.drop_first(), c, start + 1);
        assert(rounds_events(w, pc, start) == seq![Event::RoundStart { round: start as u32 }]
            + round_events(w, choices[0].0, choices[0].1)
            + rounds_events(w1, pc.drop_first(), start + 1));
        assert(world_after_rounds(w, choices) == world_after_rounds(w1, choices.drop_first()));
    }
}

/// Relies on rand::random_range: a uniform draw from `0..n` lies in that
/// range; the call panics only on an empty range, which `0 < n` rules out.
#[verifier::external_body]
fn pick_index(n: usize) -> (r: usize)
    requires
        0 < n,
    ensures
        r < n,
{
    rand::random_range(0..n)
}

/// Resolve one round with the choices already made: the selected attacker
/// strikes the selected defender, and the emitted events are returned.
pub fn run_round(world: &mut World, attacker: usize, defender: usize) -> (events: Vec<Event>)
    requires
        attacker < 2,
        defender < 2,
        old(world).wf(),
    ensures
        final(world).wf(),
        *final(world) == world_after_round(*old(world), attacker as int, defender as int),
        events@ == round_events(*old(world), attacker as int, defender as int),
{
    if attacker == 0 {
        if defender == 0 {
            world.goblin.hit(&mut world.orc)
        } else {
            world.goblin.hit(&mut world.building)
        }
    } else {
        if defender == 0 {
            world.orc.hit(&mut world.goblin)
        } else {
            world.orc.hit(&mut world.building)
        }
    }
}

/// Run the simulation for exactly `rounds` rounds. Each round emits its
/// boundary marker, then picks an attacker and a defender uniformly at random
/// and resolves the attack. Whatever the draws, every combatant stays
/// well-formed, damage stats never change, health never increases, and zero
/// rounds change nothing and emit nothing.
pub fn run_rounds(world: &mut World, rounds: u32) -> (events: Vec<Event>)
    requires
        old(world).wf(),
    ensures
        final(world).wf(),
        rounds == 0 ==> *final(world) == *old(world),
        rounds == 0 ==> events@ == Seq::<Event>::empty(),
        final(world).goblin.damage == old(world).goblin.damage,
        final(world).orc.damage == old(world).orc.damage,
        final(world).goblin.health <= old(world).goblin.health,
        final(world).orc.health <= old(world).orc.health,
        final(world).building.health <= old(world).building.health,
        exists|choices: Seq<(int, int)>|
            #[trigger] valid_choices(choices) && choices.len() == rounds
                && *final(world) == world_after_rounds(*old(world), choices)
                && events@ == rounds_events(*old(world), choices, 0),
{
    let mut events: Vec<Event> = Vec::new();
    let mut r: u32 = 0;
    let ghost mut choices: Seq<(int, int)> = Seq::empty();
    while r < rounds
        invariant
            r <= rounds,
            world.wf(),
            world.goblin.damage == old(world).goblin.damage,
            world.orc.damage == old(world).orc.damage,
            world.goblin.health <= old(world).goblin.health,
            world.orc.health <= old(world).orc.health,
            world.building.health <= old(world).building.health,
            valid_choices(choices),
            choices.len() == r,
            *world == world_after_rounds(*old(world), choices),
            events@ == rounds_events(*old(world), choices, 0),
        decreases rounds - r,
    {
        events.push(Event::RoundStart { round: r });
        let attacker = pick_index(2);
        let defender = pick_index(2);
        let mut round = run_round(world, attacker, defender);
        events.append(&mut round);
        proof {
            let c = (attacker as int, defender as int);
            lemma_world_after_rounds_snoc(*old(world), choices, c);
            lemma_rounds_events_snoc(*old(world), choices, c, 0);
            choices = choices.push(c);
            assert(events@ =~= rounds_events(*old(world), choices, 0));
        }
        r = r + 1;
    }
    events
}

} // verus!
