use vstd::prelude::*;

use crate::graphics::{Grey, Sprite};
use crate::physics::{Body, Collider, LockedAxes, Position, PIXELS_PER_METER};

verus! {

/// Distance of each wall from the field's centre line, in thousandths of a metre.
pub const WALL_OFFSET: u32 = 1500;

/// Drawn length and thickness of a wall, in thousandths of a metre.
pub const WALL_LENGTH: u32 = 5000;
pub const WALL_THICKNESS: u32 = 100;

/// Half extents of a wall's collider, in thousandths of an engine unit.
pub const WALL_HALF_LENGTH: u32 = 5000;
pub const WALL_HALF_THICKNESS: u32 = 400;

/// Grey level of the walls.
pub const WALL_GREY: u16 = 700;

/// The edge of the field that a wall bounds.
#[derive(PartialEq, Eq, Structural, Clone, Copy, Debug)]
pub enum Edge {
    Top,
    Bottom,
}

/// Marks a boundary of the field.
#[derive(PartialEq, Eq, Structural, Clone, Copy, Debug)]
pub struct Wall;

/// Spawns the two walls.
pub struct WallPlugin;

/// The body of a wall: dynamic, but fixed in both axes and in rotation.
pub open spec fn wall_body() -> Body {
    Body {
        dynamic: true,
        sensor: false,
        collider: Collider::Cuboid { half_width: WALL_HALF_LENGTH, half_height: WALL_HALF_THICKNESS },
        locked: LockedAxes { translation_x: true, translation_y: true, rotation: true },
        ccd: false,
        collision_events: false,
        damping: None,
        restitution: None,
        friction: None,
    }
}

/// Vertical position of the wall at `edge`, in thousandths of a pixel.
pub open spec fn wall_y(edge: Edge) -> int {
    if edge == Edge::Bottom {
        -(WALL_OFFSET * PIXELS_PER_METER)
    } else {
        WALL_OFFSET * PIXELS_PER_METER
    }
}

/// The wall at `edge` as spawned: a wide, thin bar across the field.
pub fn create_wall(edge: Edge) -> (r: (Wall, Body, Sprite))
    ensures
        r.1 == wall_body(),
        r.2 == (Sprite {
            center: Position { x: 0, y: wall_y(edge) as i64 },
            width: (WALL_LENGTH * PIXELS_PER_METER) as u64,
            height: (WALL_THICKNESS * PIXELS_PER_METER) as u64,
            round: false,
            color: Grey(WALL_GREY),
            visible: true,
        }),
{
    let offset = (WALL_OFFSET * PIXELS_PER_METER) as i64;
    let y = if edge == Edge::Bottom { -offset } else { offset };
    let body = Body {
        dynamic: true,
        sensor: false,
        collider: Collider::Cuboid { half_width: WALL_HALF_LENGTH, half_height: WALL_HALF_THICKNESS },
        locked: LockedAxes { translation_x: true, translation_y: true, rotation: true },
        ccd: false,
        collision_events: false,
        damping: None,
        restitution: None,
        friction: None,
    };
    let sprite = Sprite {
        center: Position { x: 0, y },
        width: (WALL_LENGTH * PIXELS_PER_METER) as u64,
        height: (WALL_THICKNESS * PIXELS_PER_METER) as u64,
        round: false,
        color: Grey(WALL_GREY),
        visible: true,
    };
    (Wall, body, sprite)
}

/// Both walls, the top one first.
pub fn create_walls() -> (r: Vec<(Wall, Body, Sprite)>)
    ensures
        r@.len() == 2,
        r@[0].2.center.y == wall_y(Edge::Top),
        r@[1].2.center.y == wall_y(Edge::Bottom),
        forall|j: int| 0 <= j < 2 ==> r@[j].1 == wall_body(),
{
    let mut r: Vec<(Wall, Body, Sprite)> = Vec::new();
    r.push(create_wall(Edge::Top));
    r.push(create_wall(Edge::Bottom));
    r
}

} // verus!
