//! Positions on a grid of up to 256 by 256 cells, and posable objects.
//!
//! A coordinate holds the bits of an unsigned fixed-point number with eight
//! integer bits (the cell) and eight fractional bits (the offset in the cell).

use vstd::prelude::*;

use crate::angle::Angle;

verus! {

/// Directions, as raw angle bits, that the cardinal points correspond to.
pub const FACING_NORTH: i16 = 0x4000;
pub const FACING_EAST: i16 = 0x0000;
pub const FACING_SOUTH: i16 = -0x4000;
pub const FACING_WEST: i16 = -0x8000;

/// A pair of values along the x and y axes.
#[derive(Clone, Copy, Debug)]
pub struct Vector2d<T> {
    pub x: T,
    pub y: T,
}

impl<T: Copy> Vector2d<T> {
    pub fn new(x: T, y: T) -> (r: Vector2d<T>)
        ensures
            r.x == x,
            r.y == y,
    {
        Vector2d { x, y }
    }

    pub fn x(&self) -> (r: T)
        ensures
            r == self.x,
    {
        self.x
    }

    pub fn set_x(&mut self, x: T)
        ensures
            final(self).x == x,
            final(self).y == old(self).y,
    {
        self.x = x;
    }

    pub fn y(&self) -> (r: T)
        ensures
            r == self.y,
    {
        self.y
    }

    pub fn set_y(&mut self, y: T)
        ensures
            final(self).x == old(self).x,
            final(self).y == y,
    {
        self.y = y;
    }
}

/// The cell holding a coordinate.
pub open spec fn cell_of(c: int) -> int {
    c / 0x100
}

/// The coordinate rounded down to its cell's edge.
pub open spec fn floor_of(c: int) -> int {
    (c / 0x100) * 0x100
}

/// The coordinate rounded up to a cell's edge, or the largest coordinate
/// where that edge is past the grid.
pub open spec fn ceil_of(c: int) -> int {
    if c % 0x100 == 0 {
        c
    } else if c / 0x100 == 0xff {
        0xffff
    } else {
        (c / 0x100 + 1) * 0x100
    }
}

/// A position in the world: raw `U8F8` bits along each axis.
#[derive(Clone, Copy, Debug, PartialEq, Eq, Structural)]
pub struct WorldCoordinates {
    pub x: u16,
    pub y: u16,
}

fn exec_floor(c: u16) -> (r: u16)
    ensures
        r as int == floor_of(c as int),
        r <= c,
{
    (c / 0x100) * 0x100
}

fn exec_ceil(c: u16) -> (r: u16)
    ensures
        r as int == ceil_of(c as int),
        r >= c,
{
    if c % 0x100 == 0 {
        c
    } else if c / 0x100 == 0xff {
        0xffff
    } else {
        (c / 0x100 + 1) * 0x100
    }
}

impl WorldCoordinates {
    pub fn new(x: u16, y: u16) -> (r: WorldCoordinates)
        ensures
            r.x == x,
            r.y == y,
    {
        WorldCoordinates { x, y }
    }

    /// The centre of cell `(x, y)`.
    pub fn from_cell_centre(x: u8, y: u8) -> (r: WorldCoordinates)
        ensures
            r.x == x as int * 0x100 + 0x80,
            r.y == y as int * 0x100 + 0x80,
    {
        WorldCoordinates { x: x as u16 * 0x100 + 0x80, y: y as u16 * 0x100 + 0x80 }
    }

    /// The top-left corner of cell `(x, y)`.
    pub fn from_cell_top_left(x: u8, y: u8) -> (r: WorldCoordinates)
        ensures
            r.x == x as int * 0x100,
            r.y == y as int * 0x100,
    {
        WorldCoordinates { x: x as u16 * 0x100, y: y as u16 * 0x100 }
    }

    pub fn x(&self) -> (r: u16)
        ensures
            r == self.x,
    {
        self.x
    }

    pub fn set_x(&mut self, x: u16)
        ensures
            final(self).x == x,
            final(self).y == old(self).y,
    {
        self.x = x;
    }

    pub fn cell_x_floor(&self) -> (r: u16)
        ensures
            r as int == floor_of(self.x as int),
    {
        exec_floor(self.x)
    }

    pub fn cell_x_ceil(&self) -> (r: u16)
        ensures
            r as int == ceil_of(self.x as int),
    {
        exec_ceil(self.x)
    }

    pub fn cell_x_int(&self) -> (r: u8)
        ensures
            r as int == cell_of(self.x as int),
    {
        (self.x / 0x100) as u8
    }

    pub fn cell_x_frac(&self) -> (r: u16)
        ensures
            r as int == self.x as int % 0x100,
    {
        self.x % 0x100
    }

    pub fn y(&self) -> (r: u16)
        ensures
            r == self.y,
    {
        self.y
    }

    pub fn set_y(&mut self, y: u16)
        ensures
            final(self).x == old(self).x,
            final(self).y == y,
    {
        self.y = y;
    }

    pub fn cell_y_floor(&self) -> (r: u16)
        ensures
            r as int == floor_of(self.y as int),
    {
        exec_floor(self.y)
    }

    pub fn cell_y_ceil(&self) -> (r: u16)
        ensures
            r as int == ceil_of(self.y as int),
    {
        exec_ceil(self.y)
    }

    pub fn cell_y_int(&self) -> (r: u8)
        ensures
            r as int == cell_of(self.y as int),
    {
        (self.y / 0x100) as u8
    }

    pub fn cell_y_frac(&self) -> (r: u16)
        ensures
            r as int == self.y as int % 0x100,
    {
        self.y % 0x100
    }
}

/// A posable entity: a position and a heading.
#[derive(Clone, Copy, Debug)]
pub struct Object {
    pub position: WorldCoordinates,
    pub direction: Angle,
}

impl Object {
    pub fn new(position: WorldCoordinates, direction: Angle) -> (r: Object)
        ensures
            r.position == position,
            r.direction == direction,
    {
        Object { position, direction }
    }

    pub fn position(&self) -> (r: WorldCoordinates)
        ensures
            r == self.position,
    {
        self.position
    }

    pub fn set_position(&mut self, position: WorldCoordinates)
        ensures
            final(self).position == position,
            final(self).direction == old(self).direction,
    {
        self.position = position;
    }

    pub fn direction(&self) -> (r: Angle)
        ensures
            r == self.direction,
    {
        self.direction
    }

    pub fn set_direction(&mut self, direction: Angle)
        ensures
            final(self).position == old(self).position,
            final(self).direction == direction,
    {
        self.direction = direction;
    }
}

} // verus!
