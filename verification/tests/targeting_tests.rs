use solar_lords::components::{Placement, Player};
use solar_lords::mouse_raycast::{
    pick_target, set_targets, Cursor, MouseRaycastSystem, RaySpawn, SpriteEntity, WorldPoint,
    RAY_SHEET,
};
use solar_lords::sprites::SpriteRequest;

fn sprite(name: &str, x: i32, y: i32, width: i32, height: i32) -> SpriteEntity {
    SpriteEntity { name: name.to_string(), x, y, width, height }
}

fn field() -> Vec<SpriteEntity> {
    vec![
        sprite("astroid 0", 0, 0, 100, 60),
        sprite("astroid 1", 80, 0, 100, 60),
        sprite("astroid 2", -400, 300, 50, 50),
    ]
}

#[test]
fn pointer_inside_one_box_picks_that_sprite() {
    assert_eq!(pick_target(&field(), WorldPoint { x: -20, y: 10 }), "astroid 0");
    assert_eq!(pick_target(&field(), WorldPoint { x: 100, y: -29 }), "astroid 1");
    assert_eq!(pick_target(&field(), WorldPoint { x: -424, y: 324 }), "astroid 2");
}

#[test]
fn pointer_outside_all_boxes_picks_the_empty_name() {
    assert_eq!(pick_target(&field(), WorldPoint { x: 0, y: 200 }), "");
    assert_eq!(pick_target(&Vec::new(), WorldPoint { x: 0, y: 0 }), "");
}

#[test]
fn of_overlapping_boxes_the_last_wins() {
    assert_eq!(pick_target(&field(), WorldPoint { x: 40, y: 0 }), "astroid 1");
    let mut turned = field();
    turned.swap(0, 1);
    assert_eq!(pick_target(&turned, WorldPoint { x: 40, y: 0 }), "astroid 0");
}

#[test]
fn a_point_on_the_edge_is_not_inside() {
    let one = sprite("box", 10, 20, 100, 60);
    assert!(one.covers(WorldPoint { x: 10, y: 20 }));
    assert!(one.covers(WorldPoint { x: -39, y: -9 }));
    assert!(one.covers(WorldPoint { x: 59, y: 49 }));
    assert!(!one.covers(WorldPoint { x: -40, y: 20 }));
    assert!(!one.covers(WorldPoint { x: 60, y: 20 }));
    assert!(!one.covers(WorldPoint { x: 10, y: -10 }));
    assert!(!one.covers(WorldPoint { x: 10, y: 50 }));
}

#[test]
fn odd_sizes_are_halved_exactly() {
    let one = sprite("odd", 0, 0, 5, 3);
    assert!(one.covers(WorldPoint { x: 2, y: 1 }));
    assert!(one.covers(WorldPoint { x: -2, y: -1 }));
    assert!(!one.covers(WorldPoint { x: 3, y: 0 }));
    assert!(!one.covers(WorldPoint { x: 0, y: 2 }));
}

#[test]
fn boxes_at_the_rim_of_the_numbers_do_not_overflow() {
    let far = sprite("far", i32::MAX, i32::MIN, i32::MAX, i32::MAX);
    assert!(far.covers(WorldPoint { x: i32::MAX, y: i32::MIN }));
    assert!(!far.covers(WorldPoint { x: i32::MIN, y: i32::MAX }));
    let hollow = sprite("hollow", 0, 0, -10, -10);
    assert!(!hollow.covers(WorldPoint { x: 0, y: 0 }));
}

#[test]
fn every_player_gets_the_target_and_keeps_the_rest() {
    let mut first = Player::new();
    first.hull = 40;
    first.target = Some("old".to_string());
    let mut players = vec![first, Player::new()];
    set_targets(&mut players, &"astroid 3".to_string());
    assert_eq!(players[0].target, Some("astroid 3".to_string()));
    assert_eq!(players[1].target, Some("astroid 3".to_string()));
    assert_eq!(players[0].hull, 40);
    let mut expected = Player::new();
    expected.target = Some("astroid 3".to_string());
    assert_eq!(players[1], expected);
}

#[test]
fn a_frame_with_a_cursor_sets_the_target() {
    let mut system = MouseRaycastSystem::default();
    assert_eq!(system.mining_ray, None);
    let mut players = vec![Player::new()];
    let cursor = Cursor { screen_x: 512, screen_y: 384, world: WorldPoint { x: 40, y: 0 } };
    let beam = system.run(Some(cursor), false, &field(), &mut players);
    assert_eq!(beam, None);
    assert_eq!(players[0].target, Some("astroid 1".to_string()));
    let away = Cursor { screen_x: 1, screen_y: 2, world: WorldPoint { x: 4000, y: 0 } };
    let beam = system.run(Some(away), true, &field(), &mut players);
    assert_eq!(
        beam,
        Some(RaySpawn {
            sprite: SpriteRequest {
                texture_path: "textures/solar_lords_spritesheet.png".to_string(),
                sheet_path: "textures/solar_lords_spritesheet.ron".to_string(),
                sprite_number: 6,
            },
            at: Placement { x: 1, y: 2, z: 4000 },
        })
    );
    assert_eq!(RAY_SHEET, "solar_lords_spritesheet.png");
    assert_eq!(players[0].target, Some(String::new()));
    assert_eq!(system.mining_ray, None);
}

#[test]
fn a_frame_without_a_cursor_changes_nothing() {
    let mut system = MouseRaycastSystem::default();
    let mut player = Player::new();
    player.target = Some("astroid 0".to_string());
    let mut players = vec![player, Player::new()];
    let beam = system.run(None, true, &field(), &mut players);
    assert_eq!(beam, None);
    assert_eq!(players[0].target, Some("astroid 0".to_string()));
    assert_eq!(players[1].target, None);
}
