//! Plain data records that are attached to the entities of the game.

use vstd::prelude::*;

verus! {

/// Number of fixed-point steps in one world unit: lengths, speeds and scale
/// factors are integers counted in thousandths.
pub const UNIT: i32 = 1000;

/// Logical width of the camera's viewport, in thousandths.
pub const CAMERA_WIDTH: i32 = 1_000_000;

/// Logical height of the camera's viewport, in thousandths.
pub const CAMERA_HEIGHT: i32 = 750_000;

/// Resources of a freshly created asteroid.
pub const STARTING_RESOURCES: u32 = 1000;

/// An asteroid's sprite moves on by one frame at each multiple of this many
/// resources.
pub const FRAME_INTERVAL: u32 = 250;

/// Size of a viewport, in thousandths.
#[derive(Clone, Copy, Debug, PartialEq, Eq, Structural)]
pub struct CameraDimensions {
    pub width: i32,
    pub height: i32,
}

#[derive(Clone, Copy, Debug, PartialEq, Eq, Structural)]
pub enum MiningTool {
    Laser,
    MiningLaser,
    ParticleDisruptor,
    MatterDisintegrator,
}

#[derive(Clone, Copy, Debug, PartialEq, Eq, Structural)]
pub enum Weapon {
    Laser,
    PlasmaLauncher,
    VoidBeam,
}

#[derive(Clone, Copy, Debug, PartialEq, Eq, Structural)]
pub enum Ore {
    Ice,
    Copper,
    Iron,
    Gold,
    Diamond,
    Plasma,
}

/// A parallax layer; `movement_speed` is its scroll factor in thousandths.
#[derive(Clone, Copy, Debug, PartialEq, Eq, Structural)]
pub struct Background {
    pub movement_speed: i32,
}

impl Background {
    pub fn new(speed: i32) -> (background: Background)
        ensures
            background.movement_speed == speed,
    {
        Background { movement_speed: speed }
    }
}

/// The player's ship. `speed`, `wealth`, `position` and `zoom` are counted in
/// thousandths. `target` is the name of the entity under the pointer; it is a
/// name and not a handle, so an entity of that name may no longer exist.
#[derive(Debug, PartialEq, Eq)]
pub struct Player {
    pub hull: u32,
    pub sheild: u32,
    pub mining_tool: MiningTool,
    pub weapon: Weapon,
    pub speed: i32,
    pub wealth: i64,
    pub position: (i32, i32),
    pub zoom: i32,
    pub target: Option<String>,
}

impl Clone for Player {
    fn clone(&self) -> (copy: Player)
        ensures
            copy == *self,
    {
        Player {
            hull: self.hull,
            sheild: self.sheild,
            mining_tool: self.mining_tool,
            weapon: self.weapon,
            speed: self.speed,
            wealth: self.wealth,
            position: (self.position.0, self.position.1),
            zoom: self.zoom,
            target: match &self.target {
                Some(name) => Some(name.clone()),
                None => None,
            },
        }
    }
}

impl Player {
    /// A new ship: full hull and shield, the basic tools, no wealth, no target.
    pub fn new() -> (player: Player)
        ensures
            player.is_fresh(),
    {
        Player {
            hull: 100,
            sheild: 100,
            mining_tool: MiningTool::Laser,
            weapon: Weapon::Laser,
            speed: UNIT,
            wealth: 0,
            position: (0, 0),
            zoom: 2000,
            target: None,
        }
    }

    /// A ship as `new` makes it.
    pub open spec fn is_fresh(self) -> bool {
        &&& self.hull == 100
        &&& self.sheild == 100
        &&& self.mining_tool == MiningTool::Laser
        &&& self.weapon == Weapon::Laser
        &&& self.speed == UNIT
        &&& self.wealth == 0
        &&& self.position == (0i32, 0i32)
        &&& self.zoom == 2 * UNIT
        &&& self.target is None
    }

    /// The target as contracts see it: the characters of the name, if one is set.
    pub open spec fn target_name(self) -> Option<Seq<char>> {
        match self.target {
            Some(name) => Some(name@),
            None => None,
        }
    }
}

/// The camera that follows the ship, with its logical viewport.
#[derive(Clone, Copy, Debug, PartialEq, Eq, Structural)]
pub struct PlayerCamera {
    pub width: i32,
    pub height: i32,
}

impl PlayerCamera {
    pub fn new() -> (camera: PlayerCamera)
        ensures
            camera.width == CAMERA_WIDTH,
            camera.height == CAMERA_HEIGHT,
    {
        PlayerCamera { width: CAMERA_WIDTH, height: CAMERA_HEIGHT }
    }
}

/// What can be mined from an asteroid, and how much of it is left.
#[derive(Clone, Copy, Debug, PartialEq, Eq, Structural)]
pub struct Astroid {
    pub ore: Ore,
    pub resources: u32,
}

impl Astroid {
    pub fn new(ore: Ore) -> (astroid: Astroid)
        ensures
            astroid.ore == ore,
            astroid.resources == STARTING_RESOURCES,
    {
        Astroid { ore, resources: STARTING_RESOURCES }
    }
}

/// Where an entity stands in the world, in thousandths.
#[derive(Clone, Copy, Debug, PartialEq, Eq, Structural)]
pub struct Placement {
    pub x: i32,
    pub y: i32,
    pub z: i32,
}

/// The beam between ship and target.
#[derive(Clone, Copy, Debug, PartialEq, Eq, Structural)]
pub struct MiningRay {
    pub visible: bool,
    pub starting_transform: Placement,
    pub ending_transform: Placement,
}

} // verus!
