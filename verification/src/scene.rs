//! The fixed parts of the scene: sizes, places and the collider of every
//! layer, in whole units.

use vstd::prelude::*;
use crate::layers::Layer;

verus! {

pub const WEBBING_WIDTH: u32 = 1;

pub const WEBBING_HEIGHT: u32 = 5;

/// How much wider and taller than its segment a sticky sensor is.
pub const STICKY_SENSOR_MARGIN: u32 = 1;

pub const FLOOR_WIDTH: u32 = 200;

pub const FLOOR_HEIGHT: u32 = 5;

/// Height of the floor's centre.
pub const FLOOR_Y: i32 = -50;

pub const PLAYER_RADIUS: u32 = 10;

pub const LEAVING_SENSOR_RADIUS: u32 = 10;

/// Downward acceleration.
pub const GRAVITY: u32 = 100;

/// The outline of a collider.
#[derive(Clone, Copy, Debug, PartialEq, Eq, Structural)]
pub enum Shape {
    Rectangle { width: u32, height: u32 },
    Circle { radius: u32 },
}

/// The collider of each layer, as a table.
pub open spec fn shape_of(layer: Layer) -> Shape {
    match layer {
        Layer::Boundary => Shape::Rectangle { width: FLOOR_WIDTH, height: FLOOR_HEIGHT },
        Layer::Webbing => Shape::Rectangle { width: WEBBING_WIDTH, height: WEBBING_HEIGHT },
        Layer::LeavingSensor => Shape::Circle { radius: LEAVING_SENSOR_RADIUS },
        Layer::StickySensor => Shape::Rectangle {
            width: (WEBBING_WIDTH + STICKY_SENSOR_MARGIN) as u32,
            height: (WEBBING_HEIGHT + STICKY_SENSOR_MARGIN) as u32,
        },
        Layer::Player => Shape::Circle { radius: PLAYER_RADIUS },
    }
}

/// The collider that the scene gives to a body or sensor of `layer`.
pub fn collider(layer: Layer) -> (shape: Shape)
    ensures
        shape == shape_of(layer),
{
    match layer {
        Layer::Boundary => Shape::Rectangle { width: FLOOR_WIDTH, height: FLOOR_HEIGHT },
        Layer::Webbing => Shape::Rectangle { width: WEBBING_WIDTH, height: WEBBING_HEIGHT },
        Layer::LeavingSensor => Shape::Circle { radius: LEAVING_SENSOR_RADIUS },
        Layer::StickySensor => Shape::Rectangle {
            width: WEBBING_WIDTH + STICKY_SENSOR_MARGIN,
            height: WEBBING_HEIGHT + STICKY_SENSOR_MARGIN,
        },
        Layer::Player => Shape::Circle { radius: PLAYER_RADIUS },
    }
}

} // verus!
