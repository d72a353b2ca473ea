//! Setting up a sector: what stands in the world when the game starts.
//!
//! The functions here build blueprints, plain descriptions of entities. The
//! caller creates the entities in the order of the list, so that a blueprint
//! can name its parent by the parent's place in it.

use rand::rngs::ThreadRng;
use rand::Rng;
use vstd::prelude::*;
use vstd::string::*;
use crate::camera_zoom_system::Scale;
use crate::components::{
    Astroid,
    Background,
    CameraDimensions,
    Ore,
    Placement,
    Player,
    PlayerCamera,
    CAMERA_HEIGHT,
    CAMERA_WIDTH,
    STARTING_RESOURCES,
    UNIT,
};

verus! {

/// Number of asteroids in a new sector.
pub const ASTEROID_COUNT: u32 = 4;

/// Asteroids start within this distance of the origin along x, in thousandths.
pub const FIELD_HALF_WIDTH: i32 = 500_000;

/// Asteroids start within this distance of the origin along y, in thousandths.
pub const FIELD_HALF_HEIGHT: i32 = 350_000;

/// The sprite sheet that a sprite is taken from.
#[derive(Clone, Copy, Debug, PartialEq, Eq, Structural)]
pub enum Sheet {
    Backdrop,
    Sprites,
}

/// A frame of a sprite sheet.
#[derive(Clone, Copy, Debug, PartialEq, Eq, Structural)]
pub struct SpriteFrame {
    pub sheet: Sheet,
    pub sprite_number: usize,
}

/// What an entity is, with the component that says so. A camera also has the
/// size of what it shows.
#[derive(Debug, PartialEq, Eq)]
pub enum Role {
    Ship(Player),
    Camera(PlayerCamera, CameraDimensions),
    Backdrop(Background),
    Rock(Astroid),
}

/// The description of one entity to create.
#[derive(Debug, PartialEq, Eq)]
pub struct Blueprint {
    pub name: String,
    pub at: Placement,
    pub scale: Scale,
    pub sprite: Option<SpriteFrame>,
    pub transparent: bool,
    pub parent: Option<usize>,
    pub role: Role,
}

/// The state of the game while a sector is played: the handles of its two
/// sprite sheets, once they are loaded.
#[derive(Clone, Copy, Debug)]
pub struct SectorState {
    pub background_sprite_handle: Option<u32>,
    pub spritesheet_handle: Option<u32>,
}

impl Default for SectorState {
    fn default() -> (state: SectorState)
        ensures
            state.background_sprite_handle is None,
            state.spritesheet_handle is None,
    {
        SectorState { background_sprite_handle: None, spritesheet_handle: None }
    }
}

/// The scale that leaves an entity as large as its sprite.
pub open spec fn unit_scale() -> Scale {
    Scale { x: UNIT, y: UNIT, z: UNIT }
}

/// The middle of the camera's viewport, at depth `z`.
pub open spec fn viewport_centre(z: int) -> Placement {
    Placement { x: 500_000, y: 375_000, z: z as i32 }
}

/// The character for one decimal digit.
pub open spec fn digit(d: nat) -> char {
    if d == 0 {
        '0'
    } else if d == 1 {
        '1'
    } else if d == 2 {
        '2'
    } else if d == 3 {
        '3'
    } else if d == 4 {
        '4'
    } else if d == 5 {
        '5'
    } else if d == 6 {
        '6'
    } else if d == 7 {
        '7'
    } else if d == 8 {
        '8'
    } else {
        '9'
    }
}

/// A number written in decimal digits, without leading zeros.
pub open spec fn decimal(n: nat) -> Seq<char>
    decreases n,
{
    if n < 10 {
        seq![digit(n)]
    } else {
        decimal(n / 10).push(digit(n % 10))
    }
}

/// The name of the asteroid with the running number `i`.
pub open spec fn asteroid_name(i: nat) -> Seq<char> {
    "astroid "@ + decimal(i)
}

fn digit_str(d: u32) -> (s: &'static str)
    requires
        d < 10,
    ensures
        s@ == seq![digit(d as nat)],
{
    proof {
        reveal_strlit("0");
        reveal_strlit("1");
        reveal_strlit("2");
        reveal_strlit("3");
        reveal_strlit("4");
        reveal_strlit("5");
        reveal_strlit("6");
        reveal_strlit("7");
        reveal_strlit("8");
        reveal_strlit("9");
    }
    let s = match d {
        0 => "0",
        1 => "1",
        2 => "2",
        3 => "3",
        4 => "4",
        5 => "5",
        6 => "6",
        7 => "7",
        8 => "8",
        _ => "9",
    };
    assert(s@ =~= seq![digit(d as nat)]);
    s
}

/// Writes a number in decimal digits.
pub fn decimal_string(n: u32) -> (s: String)
    ensures
        s@ == decimal(n as nat),
    decreases n,
{
    if n < 10 {
        String::from_str(digit_str(n))
    } else {
        let head = decimal_string(n / 10);
        let s = head.concat(digit_str(n % 10));
        assert(s@ =~= decimal(n as nat));
        s
    }
}

impl Blueprint {
    /// This is the player's ship at the start: in the middle of the
    /// viewport, just above the ground plane, with a fresh `Player`.
    pub open spec fn is_mining_ship(self) -> bool {
        &&& self.name@ == "player_ship"@
        &&& self.at == viewport_centre(100)
        &&& self.scale == unit_scale()
        &&& self.sprite == Some(SpriteFrame { sheet: Sheet::Sprites, sprite_number: 0 })
        &&& !self.transparent
        &&& self.parent is None
        &&& self.role matches Role::Ship(p) && p.is_fresh()
    }

    /// This is a camera that follows `parent` from one unit above it and
    /// shows `width` by `height`.
    pub open spec fn is_camera(self, parent: usize, width: i32, height: i32) -> bool {
        &&& self.name@ == "camera"@
        &&& self.at == Placement { x: 0, y: 0, z: UNIT }
        &&& self.scale == unit_scale()
        &&& self.sprite is None
        &&& !self.transparent
        &&& self.parent == Some(parent)
        &&& self.role == Role::Camera(
            PlayerCamera { width: CAMERA_WIDTH, height: CAMERA_HEIGHT },
            CameraDimensions { width, height },
        )
    }

    /// This is the far backdrop: at half size, still, behind everything.
    pub open spec fn is_far_backdrop(self, parent: usize) -> bool {
        &&& self.name@ == "background_01"@
        &&& self.at == viewport_centre(-10_000)
        &&& self.scale == Scale { x: 500, y: 500, z: UNIT }
        &&& self.sprite == Some(SpriteFrame { sheet: Sheet::Backdrop, sprite_number: 0 })
        &&& self.transparent
        &&& self.parent == Some(parent)
        &&& self.role == Role::Backdrop(Background { movement_speed: 0 })
    }

    /// This is the near backdrop: at full size, drifting against the ship at
    /// a fifth of its pace.
    pub open spec fn is_near_backdrop(self, parent: usize) -> bool {
        &&& self.name@ == "background_02"@
        &&& self.at == viewport_centre(-9_000)
        &&& self.scale == unit_scale()
        &&& self.sprite == Some(SpriteFrame { sheet: Sheet::Backdrop, sprite_number: 1 })
        &&& self.transparent
        &&& self.parent == Some(parent)
        &&& self.role == Role::Backdrop(Background { movement_speed: -200i32 })
    }

    /// This is the asteroid with the running number `i`, of ice and with all
    /// its resources, on the ground plane at `(x, y)`.
    pub open spec fn is_asteroid(self, i: nat, x: int, y: int) -> bool {
        &&& self.name@ == asteroid_name(i)
        &&& self.at == Placement { x: x as i32, y: y as i32, z: 0 }
        &&& self.scale == unit_scale()
        &&& self.sprite == Some(SpriteFrame { sheet: Sheet::Sprites, sprite_number: 1 })
        &&& !self.transparent
        &&& self.parent is None
        &&& self.role == Role::Rock(Astroid { ore: Ore::Ice, resources: STARTING_RESOURCES })
    }

    /// The point lies in the field where asteroids start.
    pub open spec fn in_field(x: int, y: int) -> bool {
        &&& -FIELD_HALF_WIDTH <= x < FIELD_HALF_WIDTH
        &&& -FIELD_HALF_HEIGHT <= y < FIELD_HALF_HEIGHT
    }
}

/// The player's ship.
pub fn init_mining_ship() -> (ship: Blueprint)
    ensures
        ship.is_mining_ship(),
{
    Blueprint {
        name: String::from_str("player_ship"),
        at: Placement { x: CAMERA_WIDTH / 2, y: CAMERA_HEIGHT / 2, z: 100 },
        scale: Scale { x: UNIT, y: UNIT, z: UNIT },
        sprite: Some(SpriteFrame { sheet: Sheet::Sprites, sprite_number: 0 }),
        transparent: false,
        parent: None,
        role: Role::Ship(Player::new()),
    }
}

/// The camera that follows `parent` and shows a screen of `width` by
/// `height`.
pub fn init_camera(parent: usize, width: i32, height: i32) -> (camera: Blueprint)
    ensures
        camera.is_camera(parent, width, height),
{
    Blueprint {
        name: String::from_str("camera"),
        at: Placement { x: 0, y: 0, z: UNIT },
        scale: Scale { x: UNIT, y: UNIT, z: UNIT },
        sprite: None,
        transparent: false,
        parent: Some(parent),
        role: Role::Camera(PlayerCamera::new(), CameraDimensions { width, height }),
    }
}

/// A camera that follows `parent` and shows the logical viewport.
pub fn init_mining_ray(parent: usize) -> (camera: Blueprint)
    ensures
        camera.is_camera(parent, CAMERA_WIDTH, CAMERA_HEIGHT),
{
    init_camera(parent, CAMERA_WIDTH, CAMERA_HEIGHT)
}

/// The two backdrops, the far one first, both children of `parent`.
pub fn init_background_sprites(parent: usize) -> (layers: Vec<Blueprint>)
    ensures
        layers@.len() == 2,
        layers@[0].is_far_backdrop(parent),
        layers@[1].is_near_backdrop(parent),
{
    let far = Blueprint {
        name: String::from_str("background_01"),
        at: Placement { x: CAMERA_WIDTH / 2, y: CAMERA_HEIGHT / 2, z: -10_000 },
        scale: Scale { x: 500, y: 500, z: UNIT },
        sprite: Some(SpriteFrame { sheet: Sheet::Backdrop, sprite_number: 0 }),
        transparent: true,
        parent: Some(parent),
        role: Role::Backdrop(Background::new(0)),
    };
    let near = Blueprint {
        name: String::from_str("background_02"),
        at: Placement { x: CAMERA_WIDTH / 2, y: CAMERA_HEIGHT / 2, z: -9_000 },
        scale: Scale { x: UNIT, y: UNIT, z: UNIT },
        sprite: Some(SpriteFrame { sheet: Sheet::Backdrop, sprite_number: 1 }),
        transparent: true,
        parent: Some(parent),
        role: Role::Backdrop(Background::new(-200)),
    };
    let mut layers: Vec<Blueprint> = Vec::new();
    layers.push(far);
    layers.push(near);
    layers
}

/// The asteroid with the running number `i`, at `(x, y)`.
pub fn place_astroid(i: u32, x: i32, y: i32) -> (rock: Blueprint)
    ensures
        rock.is_asteroid(i as nat, x as int, y as int),
{
    let name = String::from_str("astroid ").concat(decimal_string(i).as_str());
    Blueprint {
        name,
        at: Placement { x, y, z: 0 },
        scale: Scale { x: UNIT, y: UNIT, z: UNIT },
        sprite: Some(SpriteFrame { sheet: Sheet::Sprites, sprite_number: 1 }),
        transparent: false,
        parent: None,
        role: Role::Rock(Astroid::new(Ore::Ice)),
    }
}

/// The asteroid with the running number `i`, at a place in the field that is
/// drawn at random.
pub fn init_astroids(i: u32) -> (rock: Blueprint)
    ensures
        Blueprint::in_field(rock.at.x as int, rock.at.y as int),
        rock.is_asteroid(i as nat, rock.at.x as int, rock.at.y as int),
{
    let mut rng = rand::thread_rng();
    let x = draw_between(&mut rng, -FIELD_HALF_WIDTH, FIELD_HALF_WIDTH);
    let y = draw_between(&mut rng, -FIELD_HALF_HEIGHT, FIELD_HALF_HEIGHT);
    place_astroid(i, x, y)
}

impl SectorState {
    /// Starts a sector: keeps the handles of the two sprite sheets and lists
    /// what to create: the ship, the camera that follows it, the two
    /// backdrops that hang on the camera, and the asteroids, numbered from
    /// zero, each somewhere in the field.
    pub fn on_start(
        &mut self,
        background_sprite_handle: u32,
        spritesheet_handle: u32,
        screen_width: i32,
        screen_height: i32,
    ) -> (plan: Vec<Blueprint>)
        ensures
            final(self).background_sprite_handle == Some(background_sprite_handle),
            final(self).spritesheet_handle == Some(spritesheet_handle),
            plan@.len() == 4 + ASTEROID_COUNT,
            plan@[0].is_mining_ship(),
            plan@[1].is_camera(0, screen_width, screen_height),
            plan@[2].is_far_backdrop(1),
            plan@[3].is_near_backdrop(1),
            forall|k: int|
                0 <= k < ASTEROID_COUNT ==> {
                    let rock = #[trigger] plan@[4 + k];
                    &&& Blueprint::in_field(rock.at.x as int, rock.at.y as int)
                    &&& rock.is_asteroid(k as nat, rock.at.x as int, rock.at.y as int)
                },
    {
        self.background_sprite_handle = Some(background_sprite_handle);
        self.spritesheet_handle = Some(spritesheet_handle);
        let mut plan: Vec<Blueprint> = Vec::new();
        plan.push(init_mining_ship());
        plan.push(init_camera(0, screen_width, screen_height));
        let mut layers = init_background_sprites(1);
        let near = layers.pop().unwrap();
        let far = layers.pop().unwrap();
        plan.push(far);
        plan.push(near);
        let mut i: u32 = 0;
        while i < ASTEROID_COUNT
            invariant
                0 <= i <= ASTEROID_COUNT,
                plan@.len() == 4 + i,
                plan@[0].is_mining_ship(),
                plan@[1].is_camera(0, screen_width, screen_height),
                plan@[2].is_far_backdrop(1),
                plan@[3].is_near_backdrop(1),
                forall|k: int|
                    0 <= k < i ==> {
                        let rock = #[trigger] plan@[4 + k];
                        &&& Blueprint::in_field(rock.at.x as int, rock.at.y as int)
                        &&& rock.is_asteroid(k as nat, rock.at.x as int, rock.at.y as int)
                    },
            decreases ASTEROID_COUNT - i,
        {
            plan.push(init_astroids(i));
            i += 1;
        }
        plan
    }
}

/// The files of the backdrop's sprite sheet.
pub fn load_background_sprite() -> (paths: (String, String))
    ensures
        paths.0@ == "textures/background_spritesheet.png"@,
        paths.1@ == "textures/background_spritesheet.ron"@,
{
    (
        String::from_str("textures/background_spritesheet.png"),
        String::from_str("textures/background_spritesheet.ron"),
    )
}

/// The files of the sprite sheet for ships, asteroids and beams.
pub fn load_sprite_sheet() -> (paths: (String, String))
    ensures
        paths.0@ == "textures/solar_lords_spritesheet.png"@,
        paths.1@ == "textures/solar_lords_spritesheet.ron"@,
{
    (
        String::from_str("textures/solar_lords_spritesheet.png"),
        String::from_str("textures/solar_lords_spritesheet.ron"),
    )
}

/// The generator of random numbers that `rand` keeps for each thread.
#[verifier::external_type_specification]
#[verifier::external_body]
pub struct ExThreadRng(ThreadRng);

/// `rand::thread_rng` hands out the calling thread's generator. Nothing is
/// claimed of it.
pub assume_specification[ rand::thread_rng ]() -> (rng: ThreadRng)
;

/// `Rng::gen_range` on `i32`: a number drawn from `low` up to but without
/// `high`. It panics unless `low < high`; otherwise the contract claims no
/// more than the range.
#[verifier::external_body]
fn draw_between(rng: &mut ThreadRng, low: i32, high: i32) -> (drawn: i32)
    requires
        low < high,
    ensures
        low <= drawn < high,
{
    rng.gen_range(low, high)
}

} // verus!
