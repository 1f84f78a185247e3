use vstd::prelude::*;

use crate::physics::Position;

verus! {

/// A flat colour as a grey level, in thousandths (1000 is white).
#[derive(PartialEq, Eq, Structural, Clone, Copy, Debug)]
pub struct Grey(pub u16);

/// What is drawn for an entity: a rectangle, or a disc where `round` is set,
/// centred at `center`, with sizes in thousandths of a pixel.
#[derive(PartialEq, Eq, Structural, Clone, Copy, Debug)]
pub struct Sprite {
    pub center: Position,
    pub width: u64,
    pub height: u64,
    pub round: bool,
    pub color: Grey,
    pub visible: bool,
}

/// Sets up the two-dimensional camera that draws the field.
pub struct GraphicsPlugin;

} // verus!
