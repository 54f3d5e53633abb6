//! The player's viewpoint: a pose and the vectors derived from its heading.

use vstd::prelude::*;

use crate::angle::{add_steps, Angle};
use crate::coordinates::{Object, Vector2d, WorldCoordinates};
use crate::fixed_point::{i1f15_mul, i9f23_saturating_mul, mul_i1f15, sat_i32};
use crate::parameters::RaycastingParameters;
use crate::trigonometry::Trigonometry;

verus! {

/// One axis of a relative move: the position `p` (raw `U8F8`) plus
/// `distance` (raw `I8F8`) times the heading component `dir` (raw `I1F15`),
/// worked in `I9F23`, saturating: a result before the grid is clamped to zero
/// and one past it to the largest coordinate.
pub open spec fn moved_coordinate(p: int, dir: int, distance: int) -> int {
    let s = sat_i32(distance * dir + p * 0x8000);
    if s < 0 {
        0
    } else if s / 0x8000 > 0xffff {
        0xffff
    } else {
        s / 0x8000
    }
}

/// The camera's pose together with its unit heading vector and its
/// projection-plane vector, both raw `I1F15` pairs.
#[derive(Clone, Copy, Debug)]
pub struct Camera {
    object: Object,
    direction_vector: Vector2d<i16>,
    projection_plane_vector: Vector2d<i16>,
}

impl Camera {
    pub closed spec fn object(&self) -> Object {
        self.object
    }

    pub closed spec fn direction_vector_spec(&self) -> Vector2d<i16> {
        self.direction_vector
    }

    pub closed spec fn projection_plane_vector_spec(&self) -> Vector2d<i16> {
        self.projection_plane_vector
    }

    /// The vectors are those derived, in full, from the current heading.
    pub open spec fn wf(&self, params: &RaycastingParameters) -> bool {
        let t = params.table();
        let a = self.object().direction;
        let p = params.plane_y();
        let d = self.direction_vector_spec();
        let n = self.projection_plane_vector_spec();
        &&& d.x as int == -t.cosine_of(a)
        &&& d.y as int == -t.sine_of(a)
        &&& n.x as int == mul_i1f15(t.sine_of(a), -p)
        &&& n.y as int == mul_i1f15(t.cosine_of(a), p)
    }

    pub fn new(object: Object, params: &RaycastingParameters) -> (r: Camera)
        requires
            params.wf(),
        ensures
            r.wf(params),
            r.object() == object,
    {
        let mut camera = Camera {
            object,
            direction_vector: Vector2d::new(0, 0),
            projection_plane_vector: Vector2d::new(0, 0),
        };
        camera.set_direction(object.direction, params);
        camera
    }

    pub fn position(&self) -> (r: WorldCoordinates)
        ensures
            r == self.object().position,
    {
        self.object.position
    }

    pub fn set_position(&mut self, position: WorldCoordinates)
        ensures
            final(self).object().position == position,
            final(self).object().direction == old(self).object().direction,
            final(self).direction_vector_spec() == old(self).direction_vector_spec(),
            final(self).projection_plane_vector_spec() == old(self).projection_plane_vector_spec(),
    {
        self.object.position = position;
    }

    /// Moves `distance` (raw `I8F8`) along the heading; there is no collision
    /// detection.
    pub fn move_relative(&mut self, distance: i16)
        ensures
            final(self).object().position.x as int == moved_coordinate(
                old(self).object().position.x as int,
                old(self).direction_vector_spec().x as int,
                distance as int,
            ),
            final(self).object().position.y as int == moved_coordinate(
                old(self).object().position.y as int,
                old(self).direction_vector_spec().y as int,
                distance as int,
            ),
            final(self).object().direction == old(self).object().direction,
            final(self).direction_vector_spec() == old(self).direction_vector_spec(),
            final(self).projection_plane_vector_spec() == old(self).projection_plane_vector_spec(),
    {
        let x = move_axis(self.object.position.x, self.direction_vector.x, distance);
        let y = move_axis(self.object.position.y, self.direction_vector.y, distance);
        self.object.position = WorldCoordinates::new(x, y);
    }

    pub fn direction(&self) -> (r: Angle)
        ensures
            r == self.object().direction,
    {
        self.object.direction
    }

    /// Turns by `delta`, then derives the vectors again from the new heading.
    pub fn turn(&mut self, delta: Angle, params: &RaycastingParameters)
        requires
            params.wf(),
        ensures
            final(self).wf(params),
            final(self).object().direction@ == add_steps(old(self).object().direction@, delta@),
            final(self).object().position == old(self).object().position,
    {
        let direction = self.object.direction.add(delta);
        self.set_direction(direction, params);
    }

    /// Sets the heading and derives both vectors from it in full: the heading
    /// vector is (-cos, -sin) and the projection-plane vector
    /// (-P sin, P cos), where P is the configured plane length.
    pub fn set_direction(&mut self, direction: Angle, params: &RaycastingParameters)
        requires
            params.wf(),
        ensures
            final(self).wf(params),
            final(self).object().direction == direction,
            final(self).object().position == old(self).object().position,
    {
        let table = params.trigonometry();
        let sine = table.sine(direction);
        let cosine = table.cosine(direction);
        let p = params.projection_plane_vector_y();
        self.direction_vector = Vector2d::new(-cosine, -sine);
        self.projection_plane_vector = Vector2d::new(i1f15_mul(sine, -p), i1f15_mul(cosine, p));
        self.object.direction = direction;
    }

    pub fn direction_vector(&self) -> (r: Vector2d<i16>)
        ensures
            r == self.direction_vector_spec(),
    {
        self.direction_vector
    }

    pub fn projection_plane_vector(&self) -> (r: Vector2d<i16>)
        ensures
            r == self.projection_plane_vector_spec(),
    {
        self.projection_plane_vector
    }

    pub fn is_facing_northwards(&self) -> (r: bool)
        ensures
            r == (0x0001 <= self.object().direction@ <= 0x7fff),
    {
        self.object.direction.is_within_quadrant_0_or_1()
    }

    pub fn is_facing_eastwards(&self) -> (r: bool)
        ensures
            r == (0xc001 <= self.object().direction@ || self.object().direction@ <= 0x3fff),
    {
        self.object.direction.is_within_quadrant_3_or_0()
    }

    pub fn is_facing_southwards(&self) -> (r: bool)
        ensures
            r == (0x8001 <= self.object().direction@ <= 0xffff),
    {
        self.object.direction.is_within_quadrant_2_or_3()
    }

    pub fn is_facing_westwards(&self) -> (r: bool)
        ensures
            r == (0x4001 <= self.object().direction@ <= 0xbfff),
    {
        self.object.direction.is_within_quadrant_1_or_2()
    }
}

fn move_axis(p: u16, dir: i16, distance: i16) -> (r: u16)
    ensures
        r as int == moved_coordinate(p as int, dir as int, distance as int),
{
    let d23: i32 = distance as i32 * 0x8000;
    let dir23: i32 = dir as i32 * 0x100;
    let delta = i9f23_saturating_mul(d23, dir23);
    assert(d23 as int * dir23 as int / 0x80_0000 == distance as int * dir as int) by (nonlinear_arith)
        requires d23 == distance as int * 0x8000, dir23 == dir as int * 0x100;
    assert(-0x4000_0000 <= distance as int * dir as int <= 0x4000_0000) by (nonlinear_arith)
        requires -0x8000 <= distance <= 0x7fff, -0x8000 <= dir <= 0x7fff;
    let wide: i64 = delta as i64 + p as i64 * 0x8000;
    let s: i64 = if wide > 0x7fff_ffff {
        0x7fff_ffff
    } else if wide < -0x8000_0000 {
        -0x8000_0000
    } else {
        wide
    };
    if s < 0 {
        0
    } else if s / 0x8000 > 0xffff {
        0xffff
    } else {
        (s / 0x8000) as u16
    }
}

} // verus!
