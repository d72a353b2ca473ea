//! Rules of a small 2D space-mining game: the components of its entities,
//! target picking under the pointer, mining of the targeted asteroid, and
//! the control surface for heading and zoom.
//!
//! Every quantity that is fractional in the game world is held here as an
//! integer number of thousandths (see [`components::UNIT`]).

pub mod background_movement;
pub mod camera_zoom_system;
pub mod components;
pub mod mining;
pub mod mouse_raycast;
pub mod player_control;
pub mod scene;
pub mod sprites;
