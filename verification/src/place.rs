//! Where the protagonist is, as far as the rules need to know.
//!
//! The rules never see a coordinate. They see how each coordinate compares
//! with a few fixed marks, given in tenths of a world unit.

use vstd::prelude::*;

verus! {

/// Half the width of the pool along x and z, in tenths.
pub const POOL_HALF_WIDTH: i32 = 250;

/// Height below which the protagonist swims, in tenths.
pub const WATER_LINE: i32 = -10;

/// Distance of the tank's east and west walls from the centre, in tenths.
pub const TANK_HALF_WIDTH: i32 = 400;

/// Distance of the tank's north and south walls from the centre, in tenths.
pub const TANK_HALF_LENGTH: i32 = 500;

/// Height of the ground plane, in tenths.
pub const SEA_LEVEL: i32 = 0;

/// Vertical velocity below which the protagonist counts as falling, in tenths.
pub const FALL_SPEED: i32 = -1;

/// How a measured value compares with a mark.
#[derive(Clone, Copy, Debug, PartialEq, Eq, Hash, Structural)]
pub enum Side {
    /// The value is less than the mark.
    Below,
    /// The value equals the mark.
    On,
    /// The value is greater than the mark.
    Above,
    /// The value is not a number, and compares with nothing.
    Apart,
}

impl Side {
    /// The value is less than the mark.
    pub fn below(self) -> (yes: bool)
        ensures
            yes == (self == Side::Below),
    {
        matches!(self, Side::Below)
    }

    /// The value is greater than the mark.
    pub fn above(self) -> (yes: bool)
        ensures
            yes == (self == Side::Above),
    {
        matches!(self, Side::Above)
    }

    /// The value is less than or equal to the mark.
    pub fn at_most(self) -> (yes: bool)
        ensures
            yes == (self == Side::Below || self == Side::On),
    {
        matches!(self, Side::Below | Side::On)
    }

    /// The value is greater than or equal to the mark.
    pub fn at_least(self) -> (yes: bool)
        ensures
            yes == (self == Side::Above || self == Side::On),
    {
        matches!(self, Side::Above | Side::On)
    }
}

/// Whether `low`, then `high`, can be what one value reads against a lower
/// and a higher mark.
pub open spec fn rising(low: Side, high: Side) -> bool {
    &&& (low == Side::Apart) == (high == Side::Apart)
    &&& low == Side::Below || low == Side::On ==> high == Side::Below
    &&& high == Side::Above || high == Side::On ==> low == Side::Above
}

/// A horizontal coordinate read against four marks: the two walls of the
/// tank and, between them, the two edges of the pool.
#[derive(Clone, Copy, Debug, PartialEq, Eq, Hash, Structural)]
pub struct Span {
    /// Against the wall on the negative side.
    pub low_wall: Side,
    /// Against the pool's edge on the negative side.
    pub low_edge: Side,
    /// Against the pool's edge on the positive side.
    pub high_edge: Side,
    /// Against the wall on the positive side.
    pub high_wall: Side,
}

/// The marks that the x coordinate is read against, lowest first.
pub fn x_marks() -> (marks: [i32; 4])
    ensures
        marks@[0] == -TANK_HALF_WIDTH,
        marks@[1] == -POOL_HALF_WIDTH,
        marks@[2] == POOL_HALF_WIDTH,
        marks@[3] == TANK_HALF_WIDTH,
{
    [-TANK_HALF_WIDTH, -POOL_HALF_WIDTH, POOL_HALF_WIDTH, TANK_HALF_WIDTH]
}

/// The marks that the y coordinate is read against, lowest first.
pub fn y_marks() -> (marks: [i32; 2])
    ensures
        marks@[0] == WATER_LINE,
        marks@[1] == SEA_LEVEL,
{
    [WATER_LINE, SEA_LEVEL]
}

/// The marks that the z coordinate is read against, lowest first.
pub fn z_marks() -> (marks: [i32; 4])
    ensures
        marks@[0] == -TANK_HALF_LENGTH,
        marks@[1] == -POOL_HALF_WIDTH,
        marks@[2] == POOL_HALF_WIDTH,
        marks@[3] == TANK_HALF_LENGTH,
{
    [-TANK_HALF_LENGTH, -POOL_HALF_WIDTH, POOL_HALF_WIDTH, TANK_HALF_LENGTH]
}

impl Span {
    /// The span whose readings are `sides`, those against the lowest mark
    /// first.
    pub fn from_sides(sides: [Side; 4]) -> (span: Span)
        ensures
            span == (Span {
                low_wall: sides@[0],
                low_edge: sides@[1],
                high_edge: sides@[2],
                high_wall: sides@[3],
            }),
    {
        Span { low_wall: sides[0], low_edge: sides[1], high_edge: sides[2], high_wall: sides[3] }
    }

    /// The four readings can come from one value.
    pub open spec fn consistent(self) -> bool {
        &&& rising(self.low_wall, self.low_edge)
        &&& rising(self.low_edge, self.high_edge)
        &&& rising(self.high_edge, self.high_wall)
    }

    /// Strictly between the pool's edges.
    pub open spec fn in_pool(self) -> bool {
        self.low_edge == Side::Above && self.high_edge == Side::Below
    }

    /// Between the tank's walls, the walls included.
    pub open spec fn in_tank(self) -> bool {
        &&& self.low_wall == Side::Above || self.low_wall == Side::On
        &&& self.high_wall == Side::Below || self.high_wall == Side::On
    }

    /// Strictly beyond one of the tank's walls.
    pub open spec fn beyond_tank(self) -> bool {
        self.low_wall == Side::Below || self.high_wall == Side::Above
    }
}

/// The height read against the water line and the ground plane.
#[derive(Clone, Copy, Debug, PartialEq, Eq, Hash, Structural)]
pub struct Depth {
    /// Against `WATER_LINE`.
    pub water_line: Side,
    /// Against `SEA_LEVEL`.
    pub sea_level: Side,
}

impl Depth {
    /// The depth whose readings are `sides`, that against the water line
    /// first.
    pub fn from_sides(sides: [Side; 2]) -> (depth: Depth)
        ensures
            depth == (Depth { water_line: sides@[0], sea_level: sides@[1] }),
    {
        Depth { water_line: sides[0], sea_level: sides[1] }
    }

    /// The two readings can come from one value.
    pub open spec fn consistent(self) -> bool {
        rising(self.water_line, self.sea_level)
    }
}

/// The protagonist's position, read against the marks of the world.
#[derive(Clone, Copy, Debug, PartialEq, Eq, Hash, Structural)]
pub struct Place {
    /// The x coordinate against `-TANK_HALF_WIDTH`, `-POOL_HALF_WIDTH`,
    /// `POOL_HALF_WIDTH` and `TANK_HALF_WIDTH`.
    pub x: Span,
    /// The y coordinate.
    pub y: Depth,
    /// The z coordinate against `-TANK_HALF_LENGTH`, `-POOL_HALF_WIDTH`,
    /// `POOL_HALF_WIDTH` and `TANK_HALF_LENGTH`.
    pub z: Span,
}

impl Place {
    /// The readings can come from one point.
    pub open spec fn consistent(self) -> bool {
        self.x.consistent() && self.y.consistent() && self.z.consistent()
    }

    /// Below the water line and inside the pool: the protagonist swims.
    pub open spec fn swimming(self) -> bool {
        self.y.water_line == Side::Below && self.x.in_pool() && self.z.in_pool()
    }

    /// Below the ground plane and inside the tank: the protagonist floats.
    pub open spec fn floating(self) -> bool {
        self.y.sea_level == Side::Below && self.x.in_tank() && self.z.in_tank()
    }

    /// Strictly above the ground plane.
    pub open spec fn in_the_open(self) -> bool {
        self.y.sea_level == Side::Above
    }

    /// Whether the protagonist swims here.
    pub fn is_swimming(&self) -> (yes: bool)
        ensures
            yes == self.swimming(),
    {
        self.y.water_line.below() && self.x.low_edge.above() && self.x.high_edge.below()
            && self.z.low_edge.above() && self.z.high_edge.below()
    }

    /// Whether the protagonist floats here.
    pub fn is_floating(&self) -> (yes: bool)
        ensures
            yes == self.floating(),
    {
        self.y.sea_level.below() && self.x.low_wall.at_least() && self.x.high_wall.at_most()
            && self.z.low_wall.at_least() && self.z.high_wall.at_most()
    }

    /// Whether the readings can come from one point.
    pub fn is_consistent(&self) -> (yes: bool)
        ensures
            yes == self.consistent(),
    {
        fits(self.x.low_wall, self.x.low_edge) && fits(self.x.low_edge, self.x.high_edge) && fits(
            self.x.high_edge,
            self.x.high_wall,
        ) && fits(self.y.water_line, self.y.sea_level) && fits(self.z.low_wall, self.z.low_edge)
            && fits(self.z.low_edge, self.z.high_edge) && fits(self.z.high_edge, self.z.high_wall)
    }
}

/// Whether `low`, then `high`, can be what one value reads against a lower
/// and a higher mark.
pub fn fits(low: Side, high: Side) -> (yes: bool)
    ensures
        yes == rising(low, high),
{
    match low {
        Side::Apart => matches!(high, Side::Apart),
        Side::Below | Side::On => matches!(high, Side::Below),
        Side::Above => !matches!(high, Side::Apart),
    }
}

} // verus!
