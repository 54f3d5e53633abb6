//! The per-column ray walk (a digital differential analyser) and its result.

use vstd::prelude::*;

use crate::angle::Angle;
use crate::camera::Camera;
use crate::coordinates::{ceil_of, floor_of, Vector2d, WorldCoordinates};
use crate::fixed_point::{
    i11f21_saturating_mul_add_i8f24, sat_i32, sat_u16, sat_u32, u11f21_saturating_div,
    u8f24_saturating_recip, u8f8_saturating_mul,
};
use crate::parameters::RaycastingParameters;
use crate::result::Error;
use crate::world::{CellProbe, CellProbeResult, CellTag, World};

verus! {

/// Largest raw `U8F24` distance: no wall was reached.
pub const NO_WALL_DISTANCE: u32 = 0xffff_ffff;

/// The horizontal screen position of column `x` in `[-1, 1)`, as raw `I2F14`
/// bits: `normalising * x` kept to fourteen fractional bits, less one.
pub open spec fn column_scaling(normalising: int, x: int) -> int {
    ((normalising * x) / 4) % 0x1_0000 - 0x4000
}

/// The sum, as raw `I3F29`, of the heading component `dir` and the plane
/// component `plane` scaled by `scaling`.
pub open spec fn ray_direction_wide(plane: int, scaling: int, dir: int) -> int {
    plane * scaling + dir * 0x4000
}

/// One component of a column's ray direction, as raw `I8F24` bits.
pub open spec fn ray_direction_component(plane: int, scaling: int, dir: int) -> int {
    ray_direction_wide(plane, scaling, dir) / 0x20
}

/// Distance (raw `U8F24`) the ray travels to cross one whole cell along an
/// axis where its direction component is `d`; the largest value when the ray
/// never crosses.
pub open spec fn ray_delta(d: int) -> int {
    if d == 0 {
        0xffff_ffff
    } else {
        sat_u32(0x1_0000_0000_0000int / (if d < 0 { -d } else { d }))
    }
}

/// Distance (raw `U8F24`) from the origin coordinate `o` to the first cell edge
/// the ray meets along an axis, and the step (+1 or -1) it walks cells by.
pub open spec fn initial_distance(o: int, d: int, delta: int) -> int {
    let edge = if d >= 0 { ceil_of(o) - o } else { o - floor_of(o) };
    sat_u16(edge * (delta / 0x1_0000) / 0x100) * 0x1_0000
}

pub open spec fn cell_step(d: int) -> int {
    if d >= 0 { 1 } else { -1 }
}

/// The state of a ray walk.
#[derive(Clone, Copy, Debug)]
pub struct RayWalk {
    /// Distance (raw `U8F24`) travelled to the next cell edge on each axis.
    pub distance: Vector2d<u32>,
    /// The distance on each axis before its last step.
    pub distance_last: Vector2d<u32>,
    /// Distance per whole cell on each axis.
    pub delta: Vector2d<u32>,
    /// A position in the cell the walk has reached.
    pub cell: WorldCoordinates,
    /// +1 or -1 per axis.
    pub step: Vector2d<i8>,
    /// Whether the last step was along the x axis.
    pub horizontal: bool,
}

/// The walk at the start of a column whose ray leaves `origin` in direction
/// `dir` (raw `I8F24` pair).
pub open spec fn column_walk(origin: WorldCoordinates, dir: Vector2d<i32>) -> RayWalk {
    let dx = ray_delta(dir.x as int);
    let dy = ray_delta(dir.y as int);
    RayWalk {
        distance: Vector2d {
            x: initial_distance(origin.x as int, dir.x as int, dx) as u32,
            y: initial_distance(origin.y as int, dir.y as int, dy) as u32,
        },
        distance_last: Vector2d { x: 0, y: 0 },
        delta: Vector2d { x: dx as u32, y: dy as u32 },
        cell: origin,
        step: Vector2d { x: cell_step(dir.x as int) as i8, y: cell_step(dir.y as int) as i8 },
        horizontal: false,
    }
}

/// One step of the walk: along the axis whose next edge is nearer (y on a
/// tie), into the neighbouring cell.
pub open spec fn advance(w: RayWalk) -> RayWalk {
    if w.distance.x < w.distance.y {
        RayWalk {
            distance: Vector2d { x: sat_u32(w.distance.x + w.delta.x) as u32, y: w.distance.y },
            distance_last: Vector2d { x: w.distance.x, y: w.distance_last.y },
            cell: WorldCoordinates { x: sat_u16(w.cell.x + w.step.x * 0x100) as u16, y: w.cell.y },
            horizontal: true,
            ..w
        }
    } else {
        RayWalk {
            distance: Vector2d { x: w.distance.x, y: sat_u32(w.distance.y + w.delta.y) as u32 },
            distance_last: Vector2d { x: w.distance_last.x, y: w.distance.y },
            cell: WorldCoordinates { x: w.cell.x, y: sat_u16(w.cell.y + w.step.y * 0x100) as u16 },
            horizontal: false,
            ..w
        }
    }
}

/// Walks at most `budget` steps, stopping at the first opaque cell: the walk
/// as it ends and the tag of the cell that stopped it, if any.
pub open spec fn walk<W: World>(world: &W, w: RayWalk, budget: nat) -> (RayWalk, Option<CellTag>)
    decreases budget,
{
    if budget == 0 {
        (w, None)
    } else {
        let n = advance(w);
        match world.cell_at(n.cell) {
            CellProbeResult::Opaque(tag) => (n, Some(tag)),
            _ => walk(world, n, (budget - 1) as nat),
        }
    }
}

/// Perpendicular distance to the wall that ended a walk: the distance on the
/// axis last stepped, before that step.
pub open spec fn wall_distance(w: RayWalk, tag: Option<CellTag>) -> int {
    if tag is Some {
        if w.horizontal { w.distance_last.x as int } else { w.distance_last.y as int }
    } else {
        NO_WALL_DISTANCE as int
    }
}

/// Projected wall height (raw `U11F21`) of a wall at `distance` (raw
/// `U8F24`): aspect / distance, saturating to the largest value as the
/// distance approaches zero.
pub open spec fn projected_wall_height(aspect: int, distance: int) -> int {
    let d = distance / 8;
    if d == 0 {
        0xffff_ffff
    } else {
        sat_u32(aspect * 0x20_0000 / d)
    }
}

/// The wall height in whole pixels, rounded down to an even number.
pub open spec fn wall_height_pixels(height: int) -> int {
    (height / 0x20_0000) / 2 * 2
}

/// Where along the wall face a ray struck, as raw `U0F16`: the fractional
/// part of `origin + distance * direction` on one axis (computed in `I11F21`).
pub open spec fn wall_offset(origin: int, direction: int, distance: int) -> int {
    let v = sat_i32((distance / 8) * direction / 0x100_0000 + origin * 0x2000);
    (v % 0x20_0000) / 0x20
}

/// Where along the wall face the ray of an intersection struck (raw `U0F16`),
/// on the axis not last stepped.
pub open spec fn intersection_offset(i: RayCellIntersection) -> int {
    if i.horizontal() {
        wall_offset(i.origin().y as int, i.direction().y as int, i.distance())
    } else {
        wall_offset(i.origin().x as int, i.direction().x as int, i.distance())
    }
}

/// The intersection recorded for a ray from `origin` in direction
/// `direction` whose walk ended as `w`, stopped by `tag`, at `wall`.
pub open spec fn intersection_from(
    origin: WorldCoordinates,
    direction: Vector2d<i32>,
    w: RayWalk,
    tag: Option<CellTag>,
    wall: int,
    aspect: int,
) -> Option<RayCellIntersection> {
    match tag {
        Some(t) => Some(RayCellIntersection {
            ray_origin: origin,
            ray_direction: direction,
            distance_to_wall: wall as u32,
            projected_wall_height: projected_wall_height(aspect, wall) as u32,
            is_horizontal_intersection: w.horizontal,
            cell_tag: t,
        }),
        None => None,
    }
}

/// What the ray of column `x` finds: cast from `origin` with the camera's
/// heading `dir` and plane vector `plane`, through `world`.
pub open spec fn column_hit<W: World>(
    world: &W,
    params: &RaycastingParameters,
    origin: WorldCoordinates,
    dir: Vector2d<i16>,
    plane: Vector2d<i16>,
    x: int,
) -> Option<RayCellIntersection> {
    let d = column_ray(params, dir, plane, x);
    let (w, tag) = walk(world, column_walk(origin, d), params.probes() as nat);
    intersection_from(origin, d, w, tag, wall_distance(w, tag), params.aspect())
}

/// Per-frame state of the ray walk, re-derived at the start of each column.
#[derive(Debug)]
pub struct RaycastingContext {
    canvas_column_x: u16,
    canvas_column_angle: Angle,
    camera_direction_vector: Vector2d<i16>,
    projection_plane_vector: Vector2d<i16>,
    ray_origin: WorldCoordinates,
    ray_direction: Vector2d<i32>,
    walk: RayWalk,
    distance_to_wall: u32,
    projected_wall_height: u32,
    cell_tag: Option<CellTag>,
}

/// A ray's state when it was started for column `x` of a frame.
pub open spec fn column_ray(
    params: &RaycastingParameters,
    camera_direction: Vector2d<i16>,
    plane: Vector2d<i16>,
    x: int,
) -> Vector2d<i32> {
    let sc = column_scaling(params.normalising(), x);
    Vector2d {
        x: ray_direction_component(plane.x as int, sc, camera_direction.x as int) as i32,
        y: ray_direction_component(plane.y as int, sc, camera_direction.y as int) as i32,
    }
}

impl RaycastingContext {
    pub closed spec fn column(&self) -> int {
        self.canvas_column_x as int
    }

    pub closed spec fn camera_direction(&self) -> Vector2d<i16> {
        self.camera_direction_vector
    }

    pub closed spec fn plane(&self) -> Vector2d<i16> {
        self.projection_plane_vector
    }

    pub closed spec fn origin(&self) -> WorldCoordinates {
        self.ray_origin
    }

    pub closed spec fn direction(&self) -> Vector2d<i32> {
        self.ray_direction
    }

    pub closed spec fn walk_state(&self) -> RayWalk {
        self.walk
    }

    pub closed spec fn wall(&self) -> int {
        self.distance_to_wall as int
    }

    pub closed spec fn tag(&self) -> Option<CellTag> {
        self.cell_tag
    }

    pub closed spec fn column_angle(&self) -> Angle {
        self.canvas_column_angle
    }

    /// A context before any frame: column 0, no wall found.
    pub fn default() -> (r: RaycastingContext)
        ensures
            r.column() == 0,
            r.tag() is None,
            r.wall() == NO_WALL_DISTANCE,
            r.column_angle()@ == 0,
            r.origin() == (WorldCoordinates { x: 0, y: 0 }),
    {
        let zero2 = Vector2d::new(0u32, 0u32);
        RaycastingContext {
            canvas_column_x: 0,
            canvas_column_angle: Angle::default(),
            camera_direction_vector: Vector2d::new(0, 0),
            projection_plane_vector: Vector2d::new(0, 0),
            ray_origin: WorldCoordinates::from_cell_top_left(0, 0),
            ray_direction: Vector2d::new(0, 0),
            walk: RayWalk {
                distance: zero2,
                distance_last: zero2,
                delta: zero2,
                cell: WorldCoordinates::from_cell_top_left(0, 0),
                step: Vector2d::new(0, 0),
                horizontal: false,
            },
            distance_to_wall: NO_WALL_DISTANCE,
            projected_wall_height: 0,
            cell_tag: None,
        }
    }

    /// Starts a frame from the camera's pose: column 0, its ray ready to walk.
    pub fn on_frame_start(&mut self, camera: &Camera, params: &RaycastingParameters) -> (r: Result<(), Error>)
        requires
            params.wf(),
        ensures
            r is Ok,
            final(self).column() == 0,
            final(self).tag() is None,
            final(self).wall() == NO_WALL_DISTANCE,
            final(self).origin() == camera.object().position,
            final(self).camera_direction() == camera.direction_vector_spec(),
            final(self).plane() == camera.projection_plane_vector_spec(),
            final(self).direction() == column_ray(params, camera.direction_vector_spec(), camera.projection_plane_vector_spec(), 0),
            final(self).walk_state() == column_walk(camera.object().position, final(self).direction()),
    {
        self.ray_origin = camera.position();
        self.camera_direction_vector = camera.direction_vector();
        self.projection_plane_vector = camera.projection_plane_vector();
        self.canvas_column_x = 0;
        self.cell_tag = None;
        self.distance_to_wall = NO_WALL_DISTANCE;
        self.projected_wall_height = 0;
        self.start_column(params)
    }

    /// Derives the ray of the current column: its direction, per-cell
    /// distances, first edge distances and steps.
    fn start_column(&mut self, params: &RaycastingParameters) -> (r: Result<(), Error>)
        requires
            params.wf(),
            old(self).column() < params.width(),
        ensures
            r is Ok,
            final(self).column() == old(self).column(),
            final(self).origin() == old(self).origin(),
            final(self).camera_direction() == old(self).camera_direction(),
            final(self).plane() == old(self).plane(),
            final(self).tag() == old(self).tag(),
            final(self).wall() == old(self).wall(),
            final(self).direction() == column_ray(params, old(self).camera_direction(), old(self).plane(), old(self).column()),
            final(self).walk_state() == column_walk(old(self).origin(), final(self).direction()),
    {
        let nf = params.canvas_column_normalising_factor();
        let x = self.canvas_column_x;
        let w = params.canvas_width_pixels();
        assert((nf as int) * (x as int) < 0x2_0000) by (nonlinear_arith)
            requires nf == (0x8000_0000int / w as int) / 0x4000, x < w, w >= 128;
        let wide: u32 = nf as u32 * x as u32;
        let s16: u32 = (wide / 4) % 0x1_0000;
        let scaling: i32 = s16 as i32 - 0x4000;
        assert(-0x4000 <= scaling < 0x4000);
        let dx = self.ray_component(self.projection_plane_vector.x, scaling, self.camera_direction_vector.x);
        let dx = match dx {
            Some(v) => v,
            None => {
                return Err(Error::RaycastingOverflowX);
            },
        };
        let dy = self.ray_component(self.projection_plane_vector.y, scaling, self.camera_direction_vector.y);
        let dy = match dy {
            Some(v) => v,
            None => {
                return Err(Error::RaycastingOverflowY);
            },
        };
        self.ray_direction = Vector2d::new(dx, dy);
        let delta_x = delta_for(dx);
        let delta_y = delta_for(dy);
        let (distance_x, step_x) = first_edge(self.ray_origin.x, dx, delta_x);
        let (distance_y, step_y) = first_edge(self.ray_origin.y, dy, delta_y);
        self.walk = RayWalk {
            distance: Vector2d::new(distance_x, distance_y),
            distance_last: Vector2d::new(0, 0),
            delta: Vector2d::new(delta_x, delta_y),
            cell: self.ray_origin,
            step: Vector2d::new(step_x, step_y),
            horizontal: false,
        };
        Ok(())
    }

    /// `plane * scaling + dir`, checked, then kept to 24 fractional bits.
    fn ray_component(&self, plane: i16, scaling: i32, dir: i16) -> (r: Option<i32>)
        requires
            -0x4000 <= scaling < 0x4000,
        ensures
            r == Some(ray_direction_component(plane as int, scaling as int, dir as int) as i32),
            -0x200_0000 <= ray_direction_component(plane as int, scaling as int, dir as int) <= 0x200_0000,
    {
        assert(-0x2000_0000 <= plane as int * scaling <= 0x2000_0000) by (nonlinear_arith)
            requires -0x8000 <= plane <= 0x7fff, -0x4000 <= scaling < 0x4000;
        let product: i32 = plane as i32 * scaling;
        let shifted: i32 = dir as i32 * 0x4000;
        let sum = product.checked_add(shifted);
        match sum {
            Some(s) => {
                let q: i32 = if s >= 0 { s / 0x20 } else { -((0x1f - s) / 0x20) };
                Some(q)
            },
            None => None,
        }
    }

    /// Moves to the next column: true and its ray ready while the column is
    /// within the canvas, false once it has passed the last one.
    pub fn next_column(&mut self, params: &RaycastingParameters) -> (r: Result<bool, Error>)
        requires
            params.wf(),
            old(self).column() < u16::MAX,
        ensures
            r == Ok::<bool, Error>(old(self).column() + 1 < params.width()),
            final(self).column() == old(self).column() + 1,
            final(self).origin() == old(self).origin(),
            final(self).camera_direction() == old(self).camera_direction(),
            final(self).plane() == old(self).plane(),
            final(self).tag() == old(self).tag(),
            final(self).wall() == old(self).wall(),
            r == Ok::<bool, Error>(true) ==> final(self).direction() == column_ray(params, old(self).camera_direction(), old(self).plane(), final(self).column()),
            r == Ok::<bool, Error>(true) ==> final(self).walk_state() == column_walk(old(self).origin(), final(self).direction()),
    {
        self.canvas_column_x = self.canvas_column_x + 1;
        if self.canvas_column_x < params.canvas_width_pixels() {
            match self.start_column(params) {
                Ok(()) => Ok(true),
                Err(e) => Err(e),
            }
        } else {
            Ok(false)
        }
    }

    /// Walks the current column's ray through `world`, at most the configured
    /// number of cells, and records the first opaque cell and the
    /// perpendicular distance to it.
    pub fn cast_ray<W: World>(&mut self, world: &W, params: &RaycastingParameters) -> (r: Result<(), Error>)
        ensures
            r is Ok,
            final(self).walk_state() == walk(world, old(self).walk_state(), params.probes() as nat).0,
            final(self).tag() == walk(world, old(self).walk_state(), params.probes() as nat).1,
            final(self).wall() == wall_distance(
                walk(world, old(self).walk_state(), params.probes() as nat).0,
                walk(world, old(self).walk_state(), params.probes() as nat).1,
            ),
            final(self).column() == old(self).column(),
            final(self).origin() == old(self).origin(),
            final(self).direction() == old(self).direction(),
            final(self).camera_direction() == old(self).camera_direction(),
            final(self).plane() == old(self).plane(),
    {
        self.distance_to_wall = NO_WALL_DISTANCE;
        self.projected_wall_height = 0;
        self.cell_tag = None;
        let budget = params.max_ray_cell_probes();
        let mut i: usize = 0;
        while i < budget
            invariant
                i <= budget,
                budget == params.probes(),
                self.cell_tag is None,
                self.distance_to_wall == NO_WALL_DISTANCE,
                walk(world, self.walk, (budget - i) as nat) == walk(world, old(self).walk_state(), budget as nat),
                self.canvas_column_x == old(self).column(),
                self.ray_origin == old(self).origin(),
                self.ray_direction == old(self).direction(),
                self.camera_direction_vector == old(self).camera_direction(),
                self.projection_plane_vector == old(self).plane(),
            decreases budget - i,
        {
            let before = self.walk;
            self.walk = step_walk(before);
            let probe = CellProbe::new(self.walk.cell);
            match world.probe_cell(&probe) {
                CellProbeResult::Opaque(tag) => {
                    self.cell_tag = Some(tag);
                    self.distance_to_wall = if self.walk.horizontal {
                        self.walk.distance_last.x
                    } else {
                        self.walk.distance_last.y
                    };
                    return Ok(());
                },
                _ => {},
            }
            i = i + 1;
        }
        Ok(())
    }

    pub fn canvas_column_x(&self) -> (r: u16)
        ensures
            r == self.column(),
    {
        self.canvas_column_x
    }

    /// The angle of the current column's ray (kept at zero: the walk works
    /// from the projection-plane vector instead).
    pub fn canvas_column_angle(&self) -> (r: Angle)
        ensures
            r == self.column_angle(),
    {
        self.canvas_column_angle
    }

    /// The current column's ray direction (raw `I8F24` pair).
    pub fn ray_direction(&self) -> (r: Vector2d<i32>)
        ensures
            r == self.direction(),
    {
        self.ray_direction
    }

    /// Where the current column's ray starts.
    pub fn ray_origin(&self) -> (r: WorldCoordinates)
        ensures
            r == self.origin(),
    {
        self.ray_origin
    }

    /// The distance (raw `U8F24`) to the wall found by the last walk.
    pub fn distance_to_wall(&self) -> (r: u32)
        ensures
            r == self.wall(),
    {
        self.distance_to_wall
    }

    /// What the last walk found, if it reached an opaque cell.
    pub fn cell_intersection(&self, params: &RaycastingParameters) -> (r: Option<RayCellIntersection>)
        ensures
            r == intersection_from(self.origin(), self.direction(), self.walk_state(), self.tag(), self.wall(), params.aspect()),
    {
        match self.cell_tag {
            Some(tag) => {
                let height = wall_height_for(params.aspect_ratio_for_wall_height(), self.distance_to_wall);
                Some(RayCellIntersection::new(
                    self.ray_origin,
                    self.ray_direction,
                    self.distance_to_wall,
                    height,
                    self.walk.horizontal,
                    tag,
                ))
            },
            None => None,
        }
    }

    pub fn cell_tag(&self) -> (r: Option<CellTag>)
        ensures
            r == self.tag(),
    {
        self.cell_tag
    }
}

/// Projected wall height for a wall at `distance`, saturating as it nears zero.
pub fn wall_height_for(aspect: u32, distance: u32) -> (r: u32)
    ensures
        r as int == projected_wall_height(aspect as int, distance as int),
{
    let d = distance / 8;
    if d == 0 {
        0xffff_ffff
    } else {
        u11f21_saturating_div(aspect, d)
    }
}

fn delta_for(d: i32) -> (r: u32)
    requires
        -0x200_0000 <= d <= 0x200_0000,
    ensures
        r as int == ray_delta(d as int),
{
    if d == 0 {
        0xffff_ffff
    } else {
        let a: u32 = if d < 0 { (-d) as u32 } else { d as u32 };
        u8f24_saturating_recip(a)
    }
}

fn first_edge(o: u16, d: i32, delta: u32) -> (r: (u32, i8))
    ensures
        r.0 as int == initial_distance(o as int, d as int, delta as int),
        r.1 as int == cell_step(d as int),
{
    let c = WorldCoordinates::new(o, 0);
    let (edge, step): (u16, i8) = if d >= 0 {
        (c.cell_x_ceil() - o, 1)
    } else {
        (o - c.cell_x_floor(), -1)
    };
    let m = u8f8_saturating_mul(edge, (delta / 0x1_0000) as u16);
    (m as u32 * 0x1_0000, step)
}

fn step_walk(w: RayWalk) -> (r: RayWalk)
    ensures
        r == advance(w),
{
    if w.distance.x < w.distance.y {
        let s: i32 = w.cell.x as i32 + w.step.x as i32 * 0x100;
        let cx: u16 = if s < 0 { 0 } else if s > 0xffff { 0xffff } else { s as u16 };
        let dist: u64 = w.distance.x as u64 + w.delta.x as u64;
        let nx: u32 = if dist > 0xffff_ffff { 0xffff_ffff } else { dist as u32 };
        RayWalk {
            distance: Vector2d { x: nx, y: w.distance.y },
            distance_last: Vector2d { x: w.distance.x, y: w.distance_last.y },
            cell: WorldCoordinates { x: cx, y: w.cell.y },
            horizontal: true,
            ..w
        }
    } else {
        let s: i32 = w.cell.y as i32 + w.step.y as i32 * 0x100;
        let cy: u16 = if s < 0 { 0 } else if s > 0xffff { 0xffff } else { s as u16 };
        let dist: u64 = w.distance.y as u64 + w.delta.y as u64;
        let ny: u32 = if dist > 0xffff_ffff { 0xffff_ffff } else { dist as u32 };
        RayWalk {
            distance: Vector2d { x: w.distance.x, y: ny },
            distance_last: Vector2d { x: w.distance_last.x, y: w.distance.y },
            cell: WorldCoordinates { x: w.cell.x, y: cy },
            horizontal: false,
            ..w
        }
    }
}

/// The result of one column's ray walk.
#[derive(Clone, Copy, Debug)]
pub struct RayCellIntersection {
    pub ray_origin: WorldCoordinates,
    pub ray_direction: Vector2d<i32>,
    pub distance_to_wall: u32,
    pub projected_wall_height: u32,
    pub is_horizontal_intersection: bool,
    pub cell_tag: CellTag,
}

impl RayCellIntersection {
    pub open spec fn origin(&self) -> WorldCoordinates {
        self.ray_origin
    }

    pub open spec fn direction(&self) -> Vector2d<i32> {
        self.ray_direction
    }

    pub open spec fn distance(&self) -> int {
        self.distance_to_wall as int
    }

    pub open spec fn height(&self) -> int {
        self.projected_wall_height as int
    }

    pub open spec fn horizontal(&self) -> bool {
        self.is_horizontal_intersection
    }

    pub open spec fn tag(&self) -> CellTag {
        self.cell_tag
    }

    pub fn new(
        ray_origin: WorldCoordinates,
        ray_direction: Vector2d<i32>,
        distance_to_wall: u32,
        projected_wall_height: u32,
        is_horizontal_intersection: bool,
        cell_tag: CellTag,
    ) -> (r: RayCellIntersection)
        ensures
            r.origin() == ray_origin,
            r.direction() == ray_direction,
            r.distance() == distance_to_wall,
            r.height() == projected_wall_height,
            r.horizontal() == is_horizontal_intersection,
            r.tag() == cell_tag,
    {
        RayCellIntersection {
            ray_origin,
            ray_direction,
            distance_to_wall,
            projected_wall_height,
            is_horizontal_intersection,
            cell_tag,
        }
    }

    /// The projected wall height in whole pixels, rounded down to even.
    pub fn projected_wall_height_int(&self) -> (r: u16)
        ensures
            r as int == wall_height_pixels(self.height()),
    {
        ((self.projected_wall_height / 0x20_0000) / 2 * 2) as u16
    }

    /// Where along the wall face the ray struck (raw `U0F16`): on the axis
    /// not last stepped.
    pub fn cell_offset(&self) -> (r: u16)
        ensures
            r as int == intersection_offset(*self),
    {
        if self.is_horizontal_intersection {
            offset_along(self.ray_origin.y, self.ray_direction.y, self.distance_to_wall)
        } else {
            offset_along(self.ray_origin.x, self.ray_direction.x, self.distance_to_wall)
        }
    }

    pub fn is_horizontal_intersection(&self) -> (r: bool)
        ensures
            r == self.horizontal(),
    {
        self.is_horizontal_intersection
    }

    pub fn cell_tag(&self) -> (r: CellTag)
        ensures
            r == self.tag(),
    {
        self.cell_tag
    }

    pub fn distance_to_wall(&self) -> (r: u32)
        ensures
            r == self.distance(),
    {
        self.distance_to_wall
    }
}

fn offset_along(origin: u16, direction: i32, distance: u32) -> (r: u16)
    ensures
        r as int == wall_offset(origin as int, direction as int, distance as int),
{
    let d = (distance / 8) as i32;
    let v = i11f21_saturating_mul_add_i8f24(d, direction, origin as i32 * 0x2000);
    let u: u64 = if v < 0 { (v as i64 + 0x1_0000_0000) as u64 } else { v as u64 };
    assert(u as int % 0x20_0000 == v as int % 0x20_0000);
    ((u % 0x20_0000) / 0x20) as u16
}

/// The projected wall height never grows as the wall gets farther away.
pub proof fn lemma_wall_height_monotonic(aspect: int, near: int, far: int)
    requires
        0 <= aspect,
        0 <= near <= far,
    ensures
        projected_wall_height(aspect, near) >= projected_wall_height(aspect, far),
{
    let dn = near / 8;
    let df = far / 8;
    assert(dn <= df);
    if dn != 0 {
        assert(aspect * 0x20_0000 / dn >= aspect * 0x20_0000 / df) by (nonlinear_arith)
            requires 0 < dn <= df, aspect >= 0;
    }
}

} // verus!
