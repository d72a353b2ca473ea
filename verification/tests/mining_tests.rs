use solar_lords::components::{Astroid, Ore, Player};
use solar_lords::mining::{held_target, strike, strike_named, AsteroidEntity, MiningSystem};

fn rock(name: &str, resources: u32, sprite_number: usize) -> AsteroidEntity {
    AsteroidEntity {
        entity: 0,
        name: name.to_string(),
        astroid: Astroid { ore: Ore::Ice, resources },
        sprite_number,
    }
}

fn numbered(entity: u32, name: &str, resources: u32) -> AsteroidEntity {
    AsteroidEntity { entity, ..rock(name, resources, 1) }
}

fn aiming_at(name: &str) -> Vec<Player> {
    let mut player = Player::new();
    player.target = Some(name.to_string());
    vec![player]
}

#[test]
fn resources_fall_by_one_per_tick_and_never_rise() {
    let players = aiming_at("astroid 0");
    let mut rocks = vec![rock("astroid 0", 5, 1), rock("astroid 1", 7, 1)];
    let mut system = MiningSystem;
    let mut last: u32 = 5;
    for tick in 1..=4u32 {
        system.run(true, &players, &mut rocks);
        assert_eq!(rocks.len(), 2);
        assert!(rocks[0].astroid.resources <= last);
        assert_eq!(rocks[0].astroid.resources, 5 - tick);
        assert_eq!(rocks[1], rock("astroid 1", 7, 1));
        last = rocks[0].astroid.resources;
    }
    system.run(true, &players, &mut rocks);
    assert_eq!(rocks, vec![rock("astroid 1", 7, 1)]);
    system.run(true, &players, &mut rocks);
    assert_eq!(rocks, vec![rock("astroid 1", 7, 1)]);
}

#[test]
fn last_resource_removes_the_asteroid() {
    let players = aiming_at("A");
    let mut rocks = vec![rock("B", 3, 1), rock("A", 1, 4), rock("C", 9, 2)];
    MiningSystem.run(true, &players, &mut rocks);
    assert_eq!(rocks, vec![rock("B", 3, 1), rock("C", 9, 2)]);
    assert!(rocks.iter().all(|r| r.name != "A"));
}

#[test]
fn unknown_target_changes_nothing() {
    let players = aiming_at("nowhere");
    let mut rocks = vec![rock("A", 1, 1), rock("B", 250, 2), rock("C", 1000, 3)];
    MiningSystem.run(true, &players, &mut rocks);
    assert_eq!(rocks, vec![rock("A", 1, 1), rock("B", 250, 2), rock("C", 1000, 3)]);
}

#[test]
fn frame_advances_at_each_multiple_of_250() {
    let players = aiming_at("astroid 2");
    let mut rocks = vec![rock("astroid 2", 1000, 1)];
    let mut system = MiningSystem;
    for _ in 0..249 {
        system.run(true, &players, &mut rocks);
    }
    assert_eq!(rocks, vec![rock("astroid 2", 751, 1)]);
    system.run(true, &players, &mut rocks);
    assert_eq!(rocks, vec![rock("astroid 2", 750, 2)]);
    system.run(true, &players, &mut rocks);
    assert_eq!(rocks, vec![rock("astroid 2", 749, 2)]);
    for _ in 0..499 {
        system.run(true, &players, &mut rocks);
    }
    assert_eq!(rocks, vec![rock("astroid 2", 250, 4)]);
    for _ in 0..249 {
        system.run(true, &players, &mut rocks);
    }
    assert_eq!(rocks, vec![rock("astroid 2", 1, 4)]);
    system.run(true, &players, &mut rocks);
    assert!(rocks.is_empty());
}

#[test]
fn seven_hundred_and_fifty_ticks_advance_three_frames() {
    let target = "rock".to_string();
    let mut rocks = vec![rock("rock", 1000, 10)];
    for _ in 0..750 {
        strike_named(&target, &mut rocks);
    }
    assert_eq!(rocks, vec![rock("rock", 250, 13)]);
}

#[test]
fn nothing_is_mined_while_the_action_is_not_held() {
    let players = aiming_at("A");
    let mut rocks = vec![rock("A", 1, 1), rock("A", 250, 2)];
    MiningSystem.run(false, &players, &mut rocks);
    assert_eq!(rocks, vec![rock("A", 1, 1), rock("A", 250, 2)]);
}

#[test]
fn no_player_or_no_target_mines_nothing() {
    let mut rocks = vec![rock("", 2, 1), rock("A", 2, 1)];
    MiningSystem.run(true, &Vec::new(), &mut rocks);
    assert_eq!(rocks, vec![rock("", 2, 1), rock("A", 2, 1)]);
    MiningSystem.run(true, &vec![Player::new()], &mut rocks);
    assert_eq!(rocks, vec![rock("", 2, 1), rock("A", 2, 1)]);
    let mut mixed = aiming_at("A");
    mixed.push(Player::new());
    MiningSystem.run(true, &mixed, &mut rocks);
    assert_eq!(rocks, vec![rock("", 2, 1), rock("A", 2, 1)]);
    let mut mixed = vec![Player::new()];
    mixed.extend(aiming_at("A"));
    MiningSystem.run(true, &mixed, &mut rocks);
    assert_eq!(rocks, vec![rock("", 2, 1), rock("A", 2, 1)]);
}

#[test]
fn the_last_player_gives_the_target() {
    let mut players = aiming_at("A");
    players.extend(aiming_at("B"));
    assert_eq!(held_target(&players), Some(&"B".to_string()));
    assert_eq!(held_target(&Vec::new()), None);
    assert_eq!(held_target(&vec![Player::new()]), None);
    let mut rocks = vec![rock("A", 5, 0), rock("B", 5, 0)];
    MiningSystem.run(true, &players, &mut rocks);
    assert_eq!(rocks, vec![rock("A", 5, 0), rock("B", 4, 0)]);
}

#[test]
fn asteroids_of_one_name_are_all_struck() {
    let target = "twin".to_string();
    let mut rocks = vec![
        rock("twin", 251, 0),
        rock("other", 251, 0),
        rock("twin", 1, 0),
        rock("twin", 2, 7),
    ];
    strike_named(&target, &mut rocks);
    assert_eq!(rocks, vec![rock("twin", 250, 1), rock("other", 251, 0), rock("twin", 1, 7)]);
}

#[test]
fn the_empty_target_matches_only_the_empty_name() {
    let players = aiming_at("");
    let mut rocks = vec![rock("A", 2, 1), rock("", 2, 1)];
    MiningSystem.run(true, &players, &mut rocks);
    assert_eq!(rocks, vec![rock("A", 2, 1), rock("", 1, 1)]);
}

#[test]
fn a_spent_asteroid_is_removed_without_going_below_zero() {
    let target = "husk".to_string();
    let mut rocks = vec![rock("husk", 0, 3), rock("A", 0, 3)];
    strike_named(&target, &mut rocks);
    assert_eq!(rocks, vec![rock("A", 0, 3)]);
}

#[test]
fn ore_and_name_survive_a_strike() {
    let target = "gold".to_string();
    let mut rocks = vec![AsteroidEntity {
        entity: 17,
        name: "gold".to_string(),
        astroid: Astroid { ore: Ore::Gold, resources: 180 },
        sprite_number: 2,
    }];
    strike_named(&target, &mut rocks);
    assert_eq!(rocks[0].entity, 17);
    assert_eq!(rocks[0].name, "gold");
    assert_eq!(rocks[0].astroid, Astroid { ore: Ore::Gold, resources: 179 });
    assert_eq!(rocks[0].sprite_number, 2);
    assert_eq!(rocks[0].clone(), rocks[0]);
}

#[test]
fn one_strike_tells_whether_the_asteroid_is_gone() {
    let target = "A".to_string();
    let mut struck = rock("A", 501, 0);
    assert!(!strike(&target, &mut struck));
    assert_eq!(struck, rock("A", 500, 1));
    assert!(!strike(&target, &mut struck));
    assert_eq!(struck, rock("A", 499, 1));
    let mut other = rock("B", 1, 0);
    assert!(!strike(&target, &mut other));
    assert_eq!(other, rock("B", 1, 0));
    let mut last = rock("A", 1, 5);
    assert!(strike(&target, &mut last));
    assert_eq!(last, rock("A", 1, 5));
    let mut spent = rock("A", 0, 5);
    assert!(strike(&target, &mut spent));
    assert_eq!(spent, rock("A", 0, 5));
}

#[test]
fn only_a_frame_that_moves_on_needs_room() {
    let target = "A".to_string();
    assert!(rock("A", 0, usize::MAX).takes_strike(&target));
    assert!(rock("A", 1, usize::MAX).takes_strike(&target));
    assert!(rock("A", 250, usize::MAX).takes_strike(&target));
    assert!(!rock("A", 251, usize::MAX).takes_strike(&target));
    assert!(rock("A", 251, usize::MAX - 1).takes_strike(&target));
    assert!(rock("A", 252, usize::MAX).takes_strike(&target));
    assert!(!rock("A", 1001, usize::MAX).takes_strike(&target));
    assert!(rock("B", 251, usize::MAX).takes_strike(&target));
    let mut rocks = vec![rock("B", 251, usize::MAX), rock("A", 252, usize::MAX)];
    strike_named(&target, &mut rocks);
    assert_eq!(rocks, vec![rock("B", 251, usize::MAX), rock("A", 251, usize::MAX)]);
}

#[test]
fn survivors_keep_their_entity_numbers() {
    let players = aiming_at("A");
    let mut rocks = vec![
        numbered(4, "B", 3),
        numbered(9, "A", 1),
        numbered(2, "A", 5),
        numbered(7, "C", 9),
    ];
    MiningSystem.run(true, &players, &mut rocks);
    assert_eq!(rocks, vec![numbered(4, "B", 3), numbered(2, "A", 4), numbered(7, "C", 9)]);
}

#[test]
fn the_last_frames_before_the_limit_are_reached() {
    let target = "A".to_string();
    let mut rocks = vec![rock("A", 251, usize::MAX - 1)];
    strike_named(&target, &mut rocks);
    assert_eq!(rocks, vec![rock("A", 250, usize::MAX)]);
    for _ in 0..249 {
        strike_named(&target, &mut rocks);
    }
    assert_eq!(rocks, vec![rock("A", 1, usize::MAX)]);
    strike_named(&target, &mut rocks);
    assert!(rocks.is_empty());
}
