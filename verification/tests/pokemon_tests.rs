use battle_status::pokemon::Pokemon;
use battle_status::statuses::{NonVolatileStatusType, Outcome, StatusError};
use battle_status::typing::Types;

/// Hit points as the library counts them: in sixteenths.
fn units(points: f64) -> u64 {
    (points * 16.0) as u64
}

/// Sixteenths of a hit point as hit points.
fn points(units: u64) -> f64 {
    units as f64 / 16.0
}

fn creator_helper() -> Pokemon {
    let mut bulbasaur: Pokemon = Pokemon::new();
    bulbasaur.name = String::from("Bulbasaur");
    bulbasaur.type_1 = Types::Grass;
    bulbasaur.type_2 = None;
    bulbasaur.max_hp = 100;
    bulbasaur.hp = units(100.0);
    bulbasaur.attack = 100;
    bulbasaur.defense = 100;
    bulbasaur.special_attack = 100;
    bulbasaur.special_defense = 100;
    bulbasaur.speed = 100;
    bulbasaur
}

fn reset(inst: &mut Pokemon) {
    inst.hp = units(100.0);
    inst.status_conditions.non_vol = None;
    inst.status_conditions.turn_count = 0;
    inst.status_conditions.vol.clear();
}

#[test]
fn test_create_pokemon() {
    let bulbasaur: Pokemon = creator_helper();
    assert_eq!(bulbasaur.name, "Bulbasaur");
    assert_eq!(bulbasaur.type_1, Types::Grass);
    assert_eq!(bulbasaur.type_2, None);
    assert_eq!(bulbasaur.max_hp as f64, 100.0);
    assert_eq!(points(bulbasaur.hp), 100.0);
    assert_eq!(bulbasaur.attack, 100);
    assert_eq!(bulbasaur.defense, 100);
    assert_eq!(bulbasaur.special_attack, 100);
    assert_eq!(bulbasaur.special_defense, 100);
    assert_eq!(bulbasaur.speed, 100);
}

#[test]
fn test_take_damage() {
    let mut bulbasaur: Pokemon = creator_helper();
    // Take damage > current health
    bulbasaur.take_attack_damage(units(897.0));
    assert_eq!(points(bulbasaur.hp), 0.0);
    bulbasaur.take_attack_damage(units(500.0));
    assert_eq!(points(bulbasaur.hp), 0.0);

    // Take damage < current health
    reset(&mut bulbasaur);
    bulbasaur.take_attack_damage(units(84.5));
    assert_eq!(points(bulbasaur.hp), 15.5);
    assert_eq!(bulbasaur.status_conditions.non_vol, None);
    assert_ne!(
        bulbasaur.status_conditions.non_vol,
        Some(NonVolatileStatusType::Fainted)
    );

    // Take damage such that health < 1.0
    reset(&mut bulbasaur);
    bulbasaur.take_attack_damage(units(99.5));
    assert_eq!(points(bulbasaur.hp), 0.0);
    assert_eq!(
        bulbasaur.status_conditions.non_vol,
        Some(NonVolatileStatusType::Fainted)
    );

    // Take damage == current health
    bulbasaur.hp = units(100.0);
    bulbasaur.status_conditions.non_vol = None;
    bulbasaur.take_attack_damage(units(100.0));
    assert_eq!(points(bulbasaur.hp), 0.0);
    assert_eq!(
        bulbasaur.status_conditions.non_vol,
        Some(NonVolatileStatusType::Fainted)
    );
}

#[test]
fn test_poison_damage() {
    let mut bulbasaur: Pokemon = creator_helper();

    // Single-instance status damage test
    reset(&mut bulbasaur);
    let applied = bulbasaur
        .status_conditions
        .non_volatile_status_check(NonVolatileStatusType::Poison, &bulbasaur.name);
    assert_eq!(applied, Ok(Outcome::Applied));
    assert_eq!(bulbasaur.take_status_damage(), Ok(()));
    assert_eq!(points(bulbasaur.hp), 87.5);

    // Multi-instance poison damage and faint test
    bulbasaur.hp = units(100.0);
    bulbasaur.status_conditions.non_vol = None;
    let applied = bulbasaur
        .status_conditions
        .non_volatile_status_check(NonVolatileStatusType::Poison, &bulbasaur.name);
    assert_eq!(applied, Ok(Outcome::Applied));
    assert_eq!(bulbasaur.take_status_damage(), Ok(()));
    assert_eq!(points(bulbasaur.hp), 87.5);
    assert_eq!(bulbasaur.take_status_damage(), Ok(()));
    assert_eq!(points(bulbasaur.hp), 75.0);
    assert_eq!(bulbasaur.take_status_damage(), Ok(()));
    assert_eq!(points(bulbasaur.hp), 62.5);
    assert_eq!(bulbasaur.take_status_damage(), Ok(()));
    assert_eq!(points(bulbasaur.hp), 50.0);
    assert_eq!(bulbasaur.take_status_damage(), Ok(()));
    assert_eq!(points(bulbasaur.hp), 37.5);
    assert_eq!(bulbasaur.take_status_damage(), Ok(()));
    assert_eq!(points(bulbasaur.hp), 25.0);
    assert_eq!(
        bulbasaur.status_conditions.non_vol,
        Some(NonVolatileStatusType::Poison)
    );
    assert_eq!(bulbasaur.take_status_damage(), Ok(()));
    assert_eq!(points(bulbasaur.hp), 12.5);
    assert_eq!(bulbasaur.take_status_damage(), Ok(()));
    assert_eq!(points(bulbasaur.hp), 0.0);
}

#[test]
fn test_toxic_damage() {
    let mut bulbasaur: Pokemon = creator_helper();

    let applied = bulbasaur
        .status_conditions
        .non_volatile_status_check(NonVolatileStatusType::Toxic, &bulbasaur.name);
    assert_eq!(applied, Ok(Outcome::Applied));
    assert_eq!(
        bulbasaur.status_conditions.non_vol,
        Some(NonVolatileStatusType::Toxic)
    );
    assert_eq!(bulbasaur.take_status_damage(), Ok(()));
    assert_eq!(points(bulbasaur.hp), 93.75);
    assert_eq!(bulbasaur.take_status_damage(), Ok(()));
    assert_eq!(
        bulbasaur.status_conditions.non_vol,
        Some(NonVolatileStatusType::Toxic)
    );
    assert_eq!(points(bulbasaur.hp), 81.25);
    assert_eq!(bulbasaur.take_status_damage(), Ok(()));
    assert_eq!(
        bulbasaur.status_conditions.non_vol,
        Some(NonVolatileStatusType::Toxic)
    );
    assert_eq!(points(bulbasaur.hp), 62.5);
    assert_eq!(bulbasaur.take_status_damage(), Ok(()));
    assert_eq!(
        bulbasaur.status_conditions.non_vol,
        Some(NonVolatileStatusType::Toxic)
    );
    assert_eq!(points(bulbasaur.hp), 37.5);
    assert_eq!(bulbasaur.take_status_damage(), Ok(()));
    assert_eq!(
        bulbasaur.status_conditions.non_vol,
        Some(NonVolatileStatusType::Toxic)
    );
    assert_eq!(points(bulbasaur.hp), 6.25);

    // Faint here
    assert_eq!(bulbasaur.take_status_damage(), Ok(()));
    assert_eq!(
        bulbasaur.status_conditions.non_vol,
        Some(NonVolatileStatusType::Fainted)
    );
    assert_eq!(points(bulbasaur.hp), 0.0);

    // 7/16 Toxic hit
    bulbasaur.hp = units(100.0);
    bulbasaur.status_conditions.non_vol = Some(NonVolatileStatusType::Toxic);
    bulbasaur.status_conditions.turn_count = 7;
    assert_eq!(bulbasaur.take_status_damage(), Ok(()));
    assert_eq!(points(bulbasaur.hp), 56.25);
    assert_eq!(
        bulbasaur.status_conditions.non_vol,
        Some(NonVolatileStatusType::Toxic)
    );

    // 8/16 Toxic hit
    bulbasaur.hp = units(100.0);
    bulbasaur.status_conditions.non_vol = Some(NonVolatileStatusType::Toxic);
    assert_eq!(bulbasaur.take_status_damage(), Ok(()));
    assert_eq!(points(bulbasaur.hp), 50.0);
    assert_eq!(
        bulbasaur.status_conditions.non_vol,
        Some(NonVolatileStatusType::Toxic)
    );

    // 9/16 Toxic hit
    bulbasaur.hp = units(100.0);
    bulbasaur.status_conditions.non_vol = Some(NonVolatileStatusType::Toxic);
    assert_eq!(bulbasaur.take_status_damage(), Ok(()));
    assert_eq!(points(bulbasaur.hp), 43.75);
    assert_eq!(
        bulbasaur.status_conditions.non_vol,
        Some(NonVolatileStatusType::Toxic)
    );

    // 10/16 Toxic hit
    bulbasaur.hp = units(100.0);
    bulbasaur.status_conditions.non_vol = Some(NonVolatileStatusType::Toxic);
    assert_eq!(bulbasaur.take_status_damage(), Ok(()));
    assert_eq!(points(bulbasaur.hp), 37.5);
    assert_eq!(
        bulbasaur.status_conditions.non_vol,
        Some(NonVolatileStatusType::Toxic)
    );

    // 11/16 Toxic hit
    bulbasaur.hp = units(100.0);
    bulbasaur.status_conditions.non_vol = Some(NonVolatileStatusType::Toxic);
    assert_eq!(bulbasaur.take_status_damage(), Ok(()));
    assert_eq!(points(bulbasaur.hp), 31.25);
    assert_eq!(
        bulbasaur.status_conditions.non_vol,
        Some(NonVolatileStatusType::Toxic)
    );

    // 12/16 Toxic hit
    bulbasaur.hp = units(100.0);
    bulbasaur.status_conditions.non_vol = Some(NonVolatileStatusType::Toxic);
    assert_eq!(bulbasaur.take_status_damage(), Ok(()));
    assert_eq!(points(bulbasaur.hp), 25.0);
    assert_eq!(
        bulbasaur.status_conditions.non_vol,
        Some(NonVolatileStatusType::Toxic)
    );

    // 13/16 Toxic hit
    bulbasaur.hp = units(100.0);
    bulbasaur.status_conditions.non_vol = Some(NonVolatileStatusType::Toxic);
    assert_eq!(bulbasaur.take_status_damage(), Ok(()));
    assert_eq!(points(bulbasaur.hp), 18.75);
    assert_eq!(
        bulbasaur.status_conditions.non_vol,
        Some(NonVolatileStatusType::Toxic)
    );

    // 14/16 Toxic hit
    bulbasaur.hp = units(100.0);
    bulbasaur.status_conditions.non_vol = Some(NonVolatileStatusType::Toxic);
    assert_eq!(bulbasaur.take_status_damage(), Ok(()));
    assert_eq!(points(bulbasaur.hp), 12.5);
    assert_eq!(
        bulbasaur.status_conditions.non_vol,
        Some(NonVolatileStatusType::Toxic)
    );

    // 15/16 Toxic hit
    bulbasaur.hp = units(100.0);
    bulbasaur.status_conditions.non_vol = Some(NonVolatileStatusType::Toxic);
    assert_eq!(bulbasaur.take_status_damage(), Ok(()));
    assert_eq!(points(bulbasaur.hp), 6.25);
    assert_eq!(
        bulbasaur.status_conditions.non_vol,
        Some(NonVolatileStatusType::Toxic)
    );

    // 16/16 Toxic hit
    bulbasaur.hp = units(100.0);
    bulbasaur.status_conditions.non_vol = Some(NonVolatileStatusType::Toxic);
    assert_eq!(bulbasaur.take_status_damage(), Ok(()));
    assert_eq!(points(bulbasaur.hp), 0.0);
    assert_eq!(
        bulbasaur.status_conditions.non_vol,
        Some(NonVolatileStatusType::Fainted)
    );
}

#[test]
fn new_creature_is_blank() {
    let fresh = Pokemon::new();
    assert_eq!(fresh.name, "New");
    assert_eq!(fresh.type_1, Types::Normal);
    assert_eq!(fresh.type_2, None);
    assert_eq!(fresh.max_hp, 0);
    assert_eq!(fresh.hp, 0);
    assert_eq!(
        (fresh.attack, fresh.defense, fresh.special_attack, fresh.special_defense, fresh.speed),
        (0, 0, 0, 0, 0)
    );
    assert_eq!(fresh.status_conditions.non_vol, None);
    assert!(fresh.status_conditions.vol.is_empty());
    assert_eq!(fresh.status_conditions.turn_count, 0);
    assert_eq!(fresh.attack_modifier, 16);
    assert_eq!(fresh.defense_modifier, 16);
    assert_eq!(fresh.special_attack_modifier, 16);
    assert_eq!(fresh.special_defense_modifier, 16);
    assert_eq!(fresh.speed_modifier, 16);
}

#[test]
fn poison_faints_on_the_eighth_turn() {
    let mut bulbasaur = creator_helper();
    bulbasaur
        .status_conditions
        .non_volatile_status_check(NonVolatileStatusType::Poison, "Bulbasaur")
        .unwrap();
    let expected = [87.5, 75.0, 62.5, 50.0, 37.5, 25.0, 12.5, 0.0];
    for (turn, left) in expected.iter().enumerate() {
        assert_eq!(bulbasaur.take_status_damage_with_roll(850), Ok(()));
        assert_eq!(points(bulbasaur.hp), *left);
        let fainted = bulbasaur.status_conditions.non_vol == Some(NonVolatileStatusType::Fainted);
        assert_eq!(fainted, turn == 7);
        if !fainted {
            assert_eq!(bulbasaur.status_conditions.turn_count, 1);
        }
    }
}

#[test]
fn toxic_damage_grows_by_a_sixteenth_each_turn() {
    let mut bulbasaur = creator_helper();
    bulbasaur
        .status_conditions
        .non_volatile_status_check(NonVolatileStatusType::Toxic, "Bulbasaur")
        .unwrap();
    let damages = [6.25, 12.5, 18.75, 25.0, 31.25];
    let mut left = 100.0;
    for (turn, damage) in damages.iter().enumerate() {
        assert_eq!(bulbasaur.status_conditions.turn_count as usize, turn + 1);
        assert_eq!(bulbasaur.take_status_damage_with_roll(850), Ok(()));
        left -= damage;
        assert_eq!(points(bulbasaur.hp), left);
    }
    assert_eq!(points(bulbasaur.hp), 6.25);
    assert_eq!(bulbasaur.take_status_damage_with_roll(850), Ok(()));
    assert_eq!(bulbasaur.hp, 0);
    assert_eq!(
        bulbasaur.status_conditions.non_vol,
        Some(NonVolatileStatusType::Fainted)
    );
}

#[test]
fn damage_of_all_hit_points_or_more_faints() {
    let mut exact = creator_helper();
    exact.take_attack_damage(units(100.0));
    assert_eq!(exact.hp, 0);
    assert_eq!(exact.status_conditions.non_vol, Some(NonVolatileStatusType::Fainted));

    let mut over = creator_helper();
    over.take_attack_damage(units(100.0) + 1);
    assert_eq!(over.hp, 0);
    assert_eq!(over.status_conditions.non_vol, Some(NonVolatileStatusType::Fainted));

    let mut huge = creator_helper();
    huge.take_attack_damage(u64::MAX);
    assert_eq!(huge.hp, 0);
    assert_eq!(huge.status_conditions.non_vol, Some(NonVolatileStatusType::Fainted));
}

#[test]
fn less_than_one_hit_point_left_is_none() {
    let mut one_left = creator_helper();
    one_left.take_attack_damage(units(99.0));
    assert_eq!(one_left.hp, 16);
    assert_eq!(one_left.status_conditions.non_vol, None);

    let mut almost_one = creator_helper();
    almost_one.take_attack_damage(units(99.0) + 1);
    assert_eq!(almost_one.hp, 0);
    assert_eq!(
        almost_one.status_conditions.non_vol,
        Some(NonVolatileStatusType::Fainted)
    );
}

#[test]
fn fainting_overrides_the_status_and_keeps_the_rest() {
    let mut bulbasaur = creator_helper();
    bulbasaur.status_conditions.non_vol = Some(NonVolatileStatusType::Sleep);
    bulbasaur.status_conditions.turn_count = 3;
    bulbasaur.take_attack_damage(units(100.0));
    assert_eq!(
        bulbasaur.status_conditions.non_vol,
        Some(NonVolatileStatusType::Fainted)
    );
    assert_eq!(bulbasaur.status_conditions.turn_count, 3);
    assert_eq!(bulbasaur.max_hp, 100);
    assert_eq!(bulbasaur.name, "Bulbasaur");
    assert_eq!(bulbasaur.attack, 100);
}

#[test]
fn fainted_creature_takes_no_status_and_no_status_damage() {
    let mut bulbasaur = creator_helper();
    bulbasaur.status_conditions.non_vol = Some(NonVolatileStatusType::Poison);
    bulbasaur.take_attack_damage(units(250.0));
    assert_eq!(bulbasaur.hp, 0);

    for kind in [
        NonVolatileStatusType::Freeze,
        NonVolatileStatusType::Paralysis,
        NonVolatileStatusType::Poison,
        NonVolatileStatusType::Burn,
        NonVolatileStatusType::Toxic,
        NonVolatileStatusType::Sleep,
        NonVolatileStatusType::Fainted,
    ] {
        let r = bulbasaur
            .status_conditions
            .non_volatile_status_check(kind, "Bulbasaur");
        assert_eq!(r, Err(StatusError::AlreadyFainted));
        assert_eq!(
            bulbasaur.status_conditions.non_vol,
            Some(NonVolatileStatusType::Fainted)
        );
    }

    let count_before = bulbasaur.status_conditions.turn_count;
    assert_eq!(bulbasaur.take_status_damage(), Err(StatusError::AlreadyFainted));
    assert_eq!(
        bulbasaur.take_status_damage_with_roll(900),
        Err(StatusError::AlreadyFainted)
    );
    assert_eq!(bulbasaur.hp, 0);
    assert_eq!(bulbasaur.status_conditions.turn_count, count_before);
    assert_eq!(
        bulbasaur.status_conditions.non_vol,
        Some(NonVolatileStatusType::Fainted)
    );
}

#[test]
fn status_damage_of_a_turn_is_one_hit() {
    // Poison (12.5) and being bound (6.25) and seeded (12.5) leave 0.75 of
    // 32 hit points: less than one, so the creature faints.
    let mut bulbasaur = creator_helper();
    bulbasaur.hp = units(32.0);
    bulbasaur.status_conditions.non_vol = Some(NonVolatileStatusType::Poison);
    bulbasaur.status_conditions.turn_count = 1;
    bulbasaur
        .status_conditions
        .volatile_status_check(battle_status::statuses::VolatileStatusType::Bound);
    bulbasaur
        .status_conditions
        .volatile_status_check(battle_status::statuses::VolatileStatusType::Seeded);
    assert_eq!(bulbasaur.take_status_damage_with_roll(850), Ok(()));
    assert_eq!(bulbasaur.hp, 0);
    assert_eq!(
        bulbasaur.status_conditions.non_vol,
        Some(NonVolatileStatusType::Fainted)
    );
    assert_eq!(bulbasaur.status_conditions.vol[0].1, 2);
    assert_eq!(bulbasaur.status_conditions.vol[1].1, 1);

    let mut sturdier = creator_helper();
    sturdier.hp = units(33.0);
    sturdier.status_conditions.non_vol = Some(NonVolatileStatusType::Poison);
    sturdier.status_conditions.turn_count = 1;
    sturdier
        .status_conditions
        .volatile_status_check(battle_status::statuses::VolatileStatusType::Bound);
    sturdier
        .status_conditions
        .volatile_status_check(battle_status::statuses::VolatileStatusType::Seeded);
    assert_eq!(sturdier.take_status_damage_with_roll(850), Ok(()));
    assert_eq!(points(sturdier.hp), 1.75);
    assert_eq!(
        sturdier.status_conditions.non_vol,
        Some(NonVolatileStatusType::Poison)
    );
}

#[test]
fn hit_points_never_rise_over_a_battle() {
    let mut bulbasaur = creator_helper();
    bulbasaur
        .status_conditions
        .non_volatile_status_check(NonVolatileStatusType::Burn, "Bulbasaur")
        .unwrap();
    let mut last = bulbasaur.hp;
    for turn in 0..40u64 {
        if turn % 3 == 0 {
            bulbasaur.take_attack_damage(turn * 7);
        } else {
            let _ = bulbasaur.take_status_damage();
        }
        assert!(bulbasaur.hp <= last);
        assert!(bulbasaur.hp == 0 || bulbasaur.hp >= 16);
        last = bulbasaur.hp;
    }
    assert_eq!(bulbasaur.hp, 0);
    assert_eq!(
        bulbasaur.status_conditions.non_vol,
        Some(NonVolatileStatusType::Fainted)
    );
}

#[test]
fn confused_creature_without_defense_is_overwhelmed() {
    let mut bulbasaur = creator_helper();
    bulbasaur.defense = 0;
    bulbasaur
        .status_conditions
        .volatile_status_check(battle_status::statuses::VolatileStatusType::Confusion);
    assert_eq!(bulbasaur.take_status_damage(), Ok(()));
    assert_eq!(bulbasaur.hp, 0);
    assert_eq!(
        bulbasaur.status_conditions.non_vol,
        Some(NonVolatileStatusType::Fainted)
    );
}

#[test]
fn exhausted_counter_stops_the_turn() {
    let mut bulbasaur = creator_helper();
    bulbasaur.status_conditions.non_vol = Some(NonVolatileStatusType::Toxic);
    bulbasaur.status_conditions.turn_count = u32::MAX;
    assert_eq!(
        bulbasaur.take_status_damage(),
        Err(StatusError::CounterExhausted)
    );
    assert_eq!(points(bulbasaur.hp), 100.0);
    assert_eq!(bulbasaur.status_conditions.turn_count, u32::MAX);
    assert_eq!(
        bulbasaur.status_conditions.non_vol,
        Some(NonVolatileStatusType::Toxic)
    );
}
