use game::{Building, CanHit, CanTakeHit, EntityKind, Event, Goblin, Orc};

#[test]
fn test_goblin_hit_orc() {
    let goblin = Goblin::new();
    let mut orc = Orc::new();
    goblin.hit(&mut orc);
    assert_eq!(orc.health, 4);
}

#[test]
fn test_orc_hit_goblin() {
    let orc = Orc::new();
    let mut goblin = Goblin::new();
    orc.hit(&mut goblin);
    assert_eq!(goblin.health, 7);
}

#[test]
fn test_goblin_hit_building() {
    let goblin = Goblin::new();
    let mut building = Building::new();
    goblin.hit(&mut building);
    assert_eq!(building.health, 13);
}

#[test]
fn test_health_never_drops_below_zero() {
    let orc = Orc::new();
    let mut goblin = Goblin::new();
    orc.hit(&mut goblin);
    orc.hit(&mut goblin);
    orc.hit(&mut goblin);
    orc.hit(&mut goblin);
    orc.hit(&mut goblin);
    assert_eq!(goblin.health, 0);
}

#[test]
fn test_dead_goblin_cannot_damage_building() {
    let orc = Orc::new();
    let mut goblin = Goblin::new();
    let mut building = Building::new();
    orc.hit(&mut goblin);
    orc.hit(&mut goblin);
    orc.hit(&mut goblin);
    orc.hit(&mut goblin);
    orc.hit(&mut goblin);
    assert_eq!(goblin.health, 0);
    goblin.hit(&mut building);
    assert_eq!(building.health, 15);
}

#[test]
fn take_hit_reports_new_health() {
    let mut building = Building::new();
    let events = building.take_hit(4);
    assert_eq!(building.health, 11);
    assert_eq!(
        events,
        vec![Event::Damaged { target: EntityKind::Building, health: 11 }]
    );
}

#[test]
fn take_hit_clamps_and_reports_defeat() {
    let mut orc = Orc { health: 2, damage: 3 };
    let events = orc.take_hit(5);
    assert_eq!(orc.health, 0);
    assert_eq!(
        events,
        vec![
            Event::Damaged { target: EntityKind::Orc, health: 0 },
            Event::Defeated { target: EntityKind::Orc },
        ]
    );
}

#[test]
fn take_hit_on_defeated_target_is_a_no_op() {
    let mut goblin = Goblin { health: 0, damage: 2 };
    let events = goblin.take_hit(7);
    assert_eq!(goblin.health, 0);
    assert_eq!(
        events,
        vec![Event::AlreadyDefeated { target: EntityKind::Goblin }]
    );
}

#[test]
fn strike_notice_precedes_damage_notice() {
    let orc = Orc::new();
    let mut building = Building::new();
    let events = orc.hit(&mut building);
    assert_eq!(
        events,
        vec![
            Event::Struck { attacker: EntityKind::Orc },
            Event::Damaged { target: EntityKind::Building, health: 12 },
        ]
    );
}

#[test]
fn defeated_attacker_only_reports_cannot_act() {
    let goblin = Goblin { health: 0, damage: 2 };
    let mut orc = Orc::new();
    let events = goblin.hit(&mut orc);
    assert_eq!(orc.health, 6);
    assert_eq!(
        events,
        vec![Event::CannotAct { attacker: EntityKind::Goblin }]
    );
}

#[test]
fn exact_damage_reaches_zero_not_below() {
    let mut goblin = Goblin { health: 10, damage: 2 };
    goblin.take_hit(3);
    goblin.take_hit(3);
    goblin.take_hit(3);
    assert_eq!(goblin.health, 1);
    let events = goblin.take_hit(3);
    assert_eq!(goblin.health, 0);
    assert_eq!(
        events,
        vec![
            Event::Damaged { target: EntityKind::Goblin, health: 0 },
            Event::Defeated { target: EntityKind::Goblin },
        ]
    );
}

#[test]
fn zero_damage_changes_nothing_but_reports() {
    let mut building = Building::new();
    let events = building.take_hit(0);
    assert_eq!(building.health, 15);
    assert_eq!(
        events,
        vec![Event::Damaged { target: EntityKind::Building, health: 15 }]
    );
}
