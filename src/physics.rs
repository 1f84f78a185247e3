use vstd::prelude::*;

verus! {

/// Pixels drawn for one metre of the simulated world.
pub const PIXELS_PER_METER: u32 = 100;

/// The world-to-screen scale, as shared with every spatial component.
#[derive(PartialEq, Eq, Structural, Clone, Copy, Debug)]
pub struct PixelsPerMeter(pub u32);

/// A point on the field, in thousandths of a pixel; the field's centre is (0, 0).
#[derive(PartialEq, Eq, Structural, Clone, Copy, Debug)]
pub struct Position {
    pub x: i64,
    pub y: i64,
}

/// Degrees of freedom that the physics engine keeps fixed for a body.
#[derive(PartialEq, Eq, Structural, Clone, Copy, Debug)]
pub struct LockedAxes {
    pub translation_x: bool,
    pub translation_y: bool,
    pub rotation: bool,
}

/// A collision shape, in thousandths of an engine unit.
#[derive(PartialEq, Eq, Structural, Clone, Copy, Debug)]
pub enum Collider {
    Cuboid { half_width: u32, half_height: u32 },
    Disc { radius: u32 },
}

/// How the coefficients of two touching bodies are combined.
#[derive(PartialEq, Eq, Structural, Clone, Copy, Debug)]
pub enum CombineRule {
    Multiply,
    Max,
}

/// A restitution or friction coefficient, in thousandths.
#[derive(PartialEq, Eq, Structural, Clone, Copy, Debug)]
pub struct Coefficient {
    pub value: u32,
    pub rule: CombineRule,
}

/// Linear and angular damping, in thousandths.
#[derive(PartialEq, Eq, Structural, Clone, Copy, Debug)]
pub struct Damping {
    pub linear: u32,
    pub angular: u32,
}

/// How a spawned entity takes part in the physics simulation.
#[derive(PartialEq, Eq, Structural, Clone, Copy, Debug)]
pub struct Body {
    /// A dynamic rigid body; otherwise a collider with no body of its own.
    pub dynamic: bool,
    /// Overlap detection only, with no collision response.
    pub sensor: bool,
    pub collider: Collider,
    pub locked: LockedAxes,
    /// Continuous collision detection.
    pub ccd: bool,
    /// Whether the engine reports collision starts and stops for it.
    pub collision_events: bool,
    pub damping: Option<Damping>,
    pub restitution: Option<Coefficient>,
    pub friction: Option<Coefficient>,
}

/// The global parameters of the simulation.
#[derive(PartialEq, Eq, Structural, Clone, Copy, Debug)]
pub struct PhysicsSettings {
    pub scale: PixelsPerMeter,
    /// Gravity, in thousandths of a pixel per second squared.
    pub gravity: Position,
}

/// Sets up the simulation: a fixed scale and no gravity.
pub struct PhysicsPlugin;

impl PhysicsPlugin {
    pub fn settings(&self) -> (r: PhysicsSettings)
        ensures
            r.scale.0 == PIXELS_PER_METER,
            r.gravity.x == 0 && r.gravity.y == 0,
    {
        PhysicsSettings { scale: PixelsPerMeter(PIXELS_PER_METER), gravity: Position { x: 0, y: 0 } }
    }
}

} // verus!
