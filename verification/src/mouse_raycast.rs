//! Target picking: the sprite under the pointer becomes the player's target.
//!
//! A sprite's box is centred on its position, as wide and as high as the
//! sprite, and never turned. Of several boxes that hold the pointer the last
//! in the order of the list wins. Where none holds it the target becomes the
//! empty name.

use vstd::prelude::*;
use crate::components::{Placement, Player};
use crate::sprites::{
    lemma_first_dot_is_unique,
    load_sprite_system,
    sheet_path,
    texture_path,
    SpriteRequest,
};

verus! {

/// The sprite sheet that holds the beam.
pub const RAY_SHEET: &'static str = "solar_lords_spritesheet.png";

/// Frame of the beam's sprite on the sprite sheet.
pub const RAY_SPRITE_NUMBER: usize = 6;

/// Depth at which a beam is drawn, in thousandths.
pub const RAY_DEPTH: i32 = 4000;

/// The system that follows the pointer. `mining_ray` is the identity of the
/// beam entity, where one is kept.
#[derive(Clone, Copy, Debug)]
pub struct MouseRaycastSystem {
    pub mining_ray: Option<u32>,
}

impl Default for MouseRaycastSystem {
    fn default() -> (system: MouseRaycastSystem)
        ensures
            system.mining_ray is None,
    {
        MouseRaycastSystem { mining_ray: None }
    }
}

/// A point of the world's ground plane, in thousandths.
#[derive(Clone, Copy, Debug, PartialEq, Eq, Structural)]
pub struct WorldPoint {
    pub x: i32,
    pub y: i32,
}

/// The pointer in one frame: where it is on the screen, and the point of the
/// ground plane that lies under it.
#[derive(Clone, Copy, Debug, PartialEq, Eq, Structural)]
pub struct Cursor {
    pub screen_x: i32,
    pub screen_y: i32,
    pub world: WorldPoint,
}

/// A named entity with a sprite: its position and the sprite's size, in
/// thousandths.
#[derive(Debug, PartialEq, Eq)]
pub struct SpriteEntity {
    pub name: String,
    pub x: i32,
    pub y: i32,
    pub width: i32,
    pub height: i32,
}

/// A sprite entity as the contracts see it.
pub struct SpriteBox {
    pub name: Seq<char>,
    pub x: int,
    pub y: int,
    pub width: int,
    pub height: int,
}

impl View for SpriteEntity {
    type V = SpriteBox;

    open spec fn view(&self) -> SpriteBox {
        SpriteBox {
            name: self.name@,
            x: self.x as int,
            y: self.y as int,
            width: self.width as int,
            height: self.height as int,
        }
    }
}

/// A beam to be created: its sprite, with the files of the sheet it is on,
/// and where it goes.
#[derive(Debug, PartialEq, Eq)]
pub struct RaySpawn {
    pub sprite: SpriteRequest,
    pub at: Placement,
}

impl RaySpawn {
    /// This is the beam for `cursor`: frame 6 of the sprite sheet
    /// `solar_lords_spritesheet.png`, at the pointer's place on the screen
    /// and at the beam's depth.
    pub open spec fn is_beam_at(self, cursor: Cursor) -> bool {
        &&& self.sprite.texture_path@ == texture_path("solar_lords_spritesheet.png"@)
        &&& self.sprite.sheet_path@ == sheet_path("solar_lords_spritesheet.png"@)
        &&& self.sprite.texture_path@ == "textures/solar_lords_spritesheet.png"@
        &&& self.sprite.sheet_path@ == "textures/solar_lords_spritesheet.ron"@
        &&& self.sprite.sprite_number == RAY_SPRITE_NUMBER
        &&& self.at == Placement { x: cursor.screen_x, y: cursor.screen_y, z: RAY_DEPTH }
    }
}

/// The sprite sheet of the beam has its dot before `png`, so that its two
/// files are `textures/solar_lords_spritesheet.png` and, for the
/// description, `textures/solar_lords_spritesheet.ron`.
pub proof fn lemma_ray_sheet_paths()
    ensures
        "solar_lords_spritesheet.png"@.contains('.'),
        texture_path("solar_lords_spritesheet.png"@) == "textures/solar_lords_spritesheet.png"@,
        sheet_path("solar_lords_spritesheet.png"@) == "textures/solar_lords_spritesheet.ron"@,
{
    reveal_strlit("solar_lords_spritesheet.png");
    reveal_strlit("textures/");
    reveal_strlit(".ron");
    reveal_strlit("textures/solar_lords_spritesheet.png");
    reveal_strlit("textures/solar_lords_spritesheet.ron");
    let name = "solar_lords_spritesheet.png"@;
    assert(name[23] == '.');
    lemma_first_dot_is_unique(name, 23);
    assert(texture_path(name) =~= "textures/solar_lords_spritesheet.png"@);
    assert(sheet_path(name) =~= "textures/solar_lords_spritesheet.ron"@);
}

/// The boxes of a list of sprite entities, in the same order.
pub open spec fn boxes(sprites: Seq<SpriteEntity>) -> Seq<SpriteBox> {
    sprites.map_values(|e: SpriteEntity| e@)
}

/// The point `(px, py)` lies strictly inside the box: further than half the
/// width from neither side, and on no edge.
pub open spec fn covers(b: SpriteBox, px: int, py: int) -> bool {
    &&& 2 * b.x - b.width < 2 * px < 2 * b.x + b.width
    &&& 2 * b.y - b.height < 2 * py < 2 * b.y + b.height
}

/// The name that the pointer at `(px, py)` picks: that of the last box that
/// covers the point, or the empty name.
pub open spec fn picked(s: Seq<SpriteBox>, px: int, py: int) -> Seq<char>
    decreases s.len(),
{
    if s.len() == 0 {
        Seq::empty()
    } else if covers(s.last(), px, py) {
        s.last().name
    } else {
        picked(s.drop_last(), px, py)
    }
}

/// `after` is `before` with the target set to `name`, and nothing else
/// changed.
pub open spec fn retargeted(before: Player, after: Player, name: Seq<char>) -> bool {
    &&& after.target_name() == Some(name)
    &&& after.hull == before.hull
    &&& after.sheild == before.sheild
    &&& after.mining_tool == before.mining_tool
    &&& after.weapon == before.weapon
    &&& after.speed == before.speed
    &&& after.wealth == before.wealth
    &&& after.position == before.position
    &&& after.zoom == before.zoom
}

impl SpriteEntity {
    /// Whether the point lies strictly inside this sprite's box.
    pub fn covers(&self, point: WorldPoint) -> (inside: bool)
        ensures
            inside == covers(self@, point.x as int, point.y as int),
    {
        let px: i64 = 2 * (point.x as i64);
        let py: i64 = 2 * (point.y as i64);
        let cx: i64 = 2 * (self.x as i64);
        let cy: i64 = 2 * (self.y as i64);
        let w: i64 = self.width as i64;
        let h: i64 = self.height as i64;
        cx - w < px && px < cx + w && cy - h < py && py < cy + h
    }
}

/// The name of the sprite under `point`: the last one in `sprites` whose box
/// covers it, or the empty name.
pub fn pick_target(sprites: &Vec<SpriteEntity>, point: WorldPoint) -> (name: String)
    ensures
        name@ == picked(boxes(sprites@), point.x as int, point.y as int),
{
    let ghost all = boxes(sprites@);
    let ghost px = point.x as int;
    let ghost py = point.y as int;
    let mut found: Option<&String> = None;
    let mut i: usize = 0;
    while i < sprites.len()
        invariant
            0 <= i <= sprites.len(),
            all == boxes(sprites@),
            px == point.x as int,
            py == point.y as int,
            match found {
                Some(n) => n@ == picked(all.take(i as int), px, py),
                None => picked(all.take(i as int), px, py) == Seq::<char>::empty(),
            },
        decreases sprites.len() - i,
    {
        proof {
            assert(all.take(i + 1).drop_last() =~= all.take(i as int));
            assert(all.take(i + 1).last() == sprites@[i as int]@);
        }
        if sprites[i].covers(point) {
            found = Some(&sprites[i].name);
        }
        i += 1;
    }
    proof {
        assert(all.take(i as int) =~= all);
    }
    match found {
        Some(n) => n.clone(),
        None => String::new(),
    }
}

/// Writes `name` into the target of every player.
pub fn set_targets(players: &mut Vec<Player>, name: &String)
    ensures
        final(players)@.len() == old(players)@.len(),
        forall|i: int|
            0 <= i < old(players)@.len() ==> retargeted(
                old(players)@[i],
                #[trigger] final(players)@[i],
                name@,
            ),
{
    let ghost before = players@;
    let mut i: usize = 0;
    while i < players.len()
        invariant
            0 <= i <= players.len(),
            players@.len() == before.len(),
            forall|j: int| 0 <= j < i ==> retargeted(before[j], #[trigger] players@[j], name@),
            forall|j: int| i <= j < before.len() ==> players@[j] == before[j],
        decreases players.len() - i,
    {
        let p = &mut players[i];
        p.target = Some(name.clone());
        i += 1;
    }
}

impl MouseRaycastSystem {
    /// One frame of target picking. Without a cursor (no pointer, no camera,
    /// or no point of the ground plane under the pointer) nothing changes.
    /// With one, every player's target becomes the name picked under the
    /// cursor's world point, and a beam is asked for at the pointer's place on
    /// the screen if and only if the mine action is held.
    pub fn run(
        &mut self,
        cursor: Option<Cursor>,
        mine_held: bool,
        sprites: &Vec<SpriteEntity>,
        players: &mut Vec<Player>,
    ) -> (beam: Option<RaySpawn>)
        ensures
            *final(self) == *old(self),
            final(players)@.len() == old(players)@.len(),
            cursor is None ==> final(players)@ == old(players)@,
            cursor is Some ==> forall|i: int|
                0 <= i < old(players)@.len() ==> retargeted(
                    old(players)@[i],
                    #[trigger] final(players)@[i],
                    picked(
                        boxes(sprites@),
                        cursor->0.world.x as int,
                        cursor->0.world.y as int,
                    ),
                ),
            match beam {
                Some(ray) => mine_held && cursor is Some && ray.is_beam_at(cursor->0),
                None => !mine_held || cursor is None,
            },
    {
        match cursor {
            None => None,
            Some(c) => {
                let name = pick_target(sprites, c.world);
                set_targets(players, &name);
                if mine_held {
                    proof {
                        lemma_ray_sheet_paths();
                    }
                    Some(
                        RaySpawn {
                            sprite: load_sprite_system(RAY_SHEET, RAY_SPRITE_NUMBER),
                            at: Placement { x: c.screen_x, y: c.screen_y, z: RAY_DEPTH },
                        },
                    )
                } else {
                    None
                }
            },
        }
    }
}

/// Of the boxes that cover the point, the last in the list gives the name.
pub proof fn lemma_last_hit_wins(s: Seq<SpriteBox>, px: int, py: int, i: int)
    requires
        0 <= i < s.len(),
        covers(s[i], px, py),
        forall|j: int| i < j < s.len() ==> !covers(s[j], px, py),
    ensures
        picked(s, px, py) == s[i].name,
    decreases s.len(),
{
    if i < s.len() - 1 {
        assert(!covers(s.last(), px, py));
        lemma_last_hit_wins(s.drop_last(), px, py, i);
    }
}

/// A point inside exactly one box picks the name of that box.
pub proof fn lemma_single_hit_is_picked(s: Seq<SpriteBox>, px: int, py: int, i: int)
    requires
        0 <= i < s.len(),
        covers(s[i], px, py),
        forall|j: int| 0 <= j < s.len() && j != i ==> !covers(s[j], px, py),
    ensures
        picked(s, px, py) == s[i].name,
{
    lemma_last_hit_wins(s, px, py, i);
}

/// A point outside all boxes picks the empty name.
pub proof fn lemma_no_hit_picks_nothing(s: Seq<SpriteBox>, px: int, py: int)
    requires
        forall|j: int| 0 <= j < s.len() ==> !covers(s[j], px, py),
    ensures
        picked(s, px, py) == Seq::<char>::empty(),
    decreases s.len(),
{
    if s.len() > 0 {
        assert(!covers(s.last(), px, py));
        lemma_no_hit_picks_nothing(s.drop_last(), px, py);
    }
}

/// The name picked is the empty name or that of a box that covers the point.
pub proof fn lemma_picked_is_hit(s: Seq<SpriteBox>, px: int, py: int)
    ensures
        picked(s, px, py) == Seq::<char>::empty() || exists|i: int|
            0 <= i < s.len() && covers(s[i], px, py) && picked(s, px, py) == s[i].name,
    decreases s.len(),
{
    if s.len() > 0 {
        if covers(s.last(), px, py) {
            assert(covers(s[s.len() - 1], px, py));
        } else {
            lemma_picked_is_hit(s.drop_last(), px, py);
            if picked(s, px, py) != Seq::<char>::empty() {
                let i = choose|i: int|
                    0 <= i < s.drop_last().len() && covers(s.drop_last()[i], px, py) && picked(
                        s.drop_last(),
                        px,
                        py,
                    ) == s.drop_last()[i].name;
                assert(covers(s[i], px, py) && picked(s, px, py) == s[i].name);
            }
        }
    }
}

} // verus!
