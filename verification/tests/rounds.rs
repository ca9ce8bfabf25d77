use game::{run_round, run_rounds, Building, EntityKind, Event, Goblin, Orc, World};

fn fresh_world() -> World {
    World {
        goblin: Goblin::new(),
        orc: Orc::new(),
        building: Building::new(),
    }
}

#[test]
fn zero_rounds_change_nothing() {
    let mut world = fresh_world();
    let events = run_rounds(&mut world, 0);
    assert_eq!(world.goblin.health, 10);
    assert_eq!(world.orc.health, 6);
    assert_eq!(world.building.health, 15);
    assert!(events.is_empty());
}

#[test]
fn round_goblin_hits_orc() {
    let mut world = fresh_world();
    let events = run_round(&mut world, 0, 0);
    assert_eq!(world.goblin.health, 10);
    assert_eq!(world.orc.health, 4);
    assert_eq!(world.building.health, 15);
    assert_eq!(
        events,
        vec![
            Event::Struck { attacker: EntityKind::Goblin },
            Event::Damaged { target: EntityKind::Orc, health: 4 },
        ]
    );
}

#[test]
fn round_goblin_hits_building() {
    let mut world = fresh_world();
    run_round(&mut world, 0, 1);
    assert_eq!(world.goblin.health, 10);
    assert_eq!(world.orc.health, 6);
    assert_eq!(world.building.health, 13);
}

#[test]
fn round_orc_hits_goblin() {
    let mut world = fresh_world();
    run_round(&mut world, 1, 0);
    assert_eq!(world.goblin.health, 7);
    assert_eq!(world.orc.health, 6);
    assert_eq!(world.building.health, 15);
}

#[test]
fn round_orc_hits_building() {
    let mut world = fresh_world();
    run_round(&mut world, 1, 1);
    assert_eq!(world.goblin.health, 10);
    assert_eq!(world.orc.health, 6);
    assert_eq!(world.building.health, 12);
}

#[test]
fn driver_keeps_every_invariant_whatever_the_draws() {
    for _ in 0..20 {
        let mut world = fresh_world();
        let events = run_rounds(&mut world, 10);
        assert!(world.goblin.health >= 0 && world.goblin.health <= 10);
        assert!(world.orc.health >= 0 && world.orc.health <= 6);
        assert!(world.building.health >= 0 && world.building.health <= 15);
        assert_eq!(world.goblin.damage, 2);
        assert_eq!(world.orc.damage, 3);
        assert_eq!(events[0], Event::RoundStart { round: 0 });
        let markers = events
            .iter()
            .filter(|e| matches!(e, Event::RoundStart { .. }))
            .count();
        assert_eq!(markers, 10);
    }
}
