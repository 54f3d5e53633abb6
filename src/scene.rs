//! One frame: a ray per canvas column, composited into sky, wall and ground.

use vstd::prelude::*;

use crate::angle::{add_steps, neg_steps, Angle};
use crate::camera::{moved_coordinate, Camera};
use crate::canvas::{
    is_prefix, lemma_prefix_concat, lemma_prefix_trans, lemma_span_prefix_within, span_writes, Canvas, PixelWrite,
};
use crate::context::{column_hit, column_ray, column_walk, wall_height_pixels, RayCellIntersection, RaycastingContext};
use crate::coordinates::Object;
use crate::parameters::RaycastingParameters;
use crate::rendering::{after_span, column_layout, column_spans, with_next_span, ColumnRendering, RenderingColumn};
use crate::result::Error;
use crate::stimuli::{CameraStimuli, FrameRenderer, OnStimuli, Stimuli};
use crate::world::{lemma_world1_spans_succeed, CellTag, World, World1, WorldRendering};

verus! {

/// Steps of turn per frame while a turn key is held.
pub const TURN_STEPS: i16 = 0x0400;

/// Distance (raw `I8F8`, one eighth of a cell) moved per frame while a move
/// key is held.
pub const MOVE_DISTANCE: i16 = 0x0020;

/// What one frame's input asks of the camera: a turn in steps (left wins over
/// right) and a move distance (forward wins over backward).
pub open spec fn camera_response_spec(left: bool, right: bool, forward: bool, backward: bool) -> (int, int) {
    (
        if left { TURN_STEPS as int } else if right { -TURN_STEPS } else { 0 },
        if forward { MOVE_DISTANCE as int } else if backward { -MOVE_DISTANCE } else { 0 },
    )
}

/// The turn (in steps) and the move distance that one frame's input asks for.
pub fn camera_response(left: bool, right: bool, forward: bool, backward: bool) -> (r: (i16, i16))
    ensures
        (r.0 as int, r.1 as int) == camera_response_spec(left, right, forward, backward),
{
    let turn: i16 = if left {
        TURN_STEPS
    } else if right {
        -TURN_STEPS
    } else {
        0
    };
    let distance: i16 = if forward {
        MOVE_DISTANCE
    } else if backward {
        -MOVE_DISTANCE
    } else {
        0
    };
    (turn, distance)
}

/// The tag of the cell a column's ray stopped at.
pub open spec fn hit_tag(hit: Option<RayCellIntersection>) -> Option<CellTag> {
    match hit {
        Some(i) => Some(i.cell_tag),
        None => None,
    }
}

/// The wall height in pixels of a column's hit, zero without one.
pub open spec fn hit_wall(hit: Option<RayCellIntersection>) -> int {
    match hit {
        Some(i) => wall_height_pixels(i.projected_wall_height as int),
        None => 0,
    }
}

/// The column before its sky span is drawn: the sky span appended to an
/// empty column at row 0.
pub open spec fn sky_column(x: int, hit: Option<RayCellIntersection>, height: int) -> RenderingColumn {
    let l = column_layout(hit_wall(hit), height);
    with_next_span(
        RenderingColumn {
            screen_x: x as u16,
            screen_y: 0,
            clipped_span_length: 0,
            span_clip_offset: 0,
            unclipped_span_length: 0,
            screen_y_end: 0,
            raycasting: hit,
        },
        l.sky as int,
        0,
        height / 2,
    )
}

/// What drawing column `x` writes: the sky span above the wall, the wall
/// (clipped to the canvas and centred, its hidden rows skipped in the
/// texture), then the ground, each as the world's renderer for the column's
/// cell draws it; and the error, if one of them raised one, after which
/// nothing more is drawn.
pub open spec fn column_outcome<W: World + WorldRendering>(
    world: &W,
    params: &RaycastingParameters,
    camera: Camera,
    x: int,
) -> (Seq<PixelWrite>, Option<Error>) {
    let hit = column_hit(
        world,
        params,
        camera.object().position,
        camera.direction_vector_spec(),
        camera.projection_plane_vector_spec(),
        x,
    );
    column_draw(world, params.height(), x, hit)
}

/// What drawing column `x` of a canvas `height` rows high writes, given what
/// its ray hit.
pub open spec fn column_draw<W: World + WorldRendering>(
    world: &W,
    height: int,
    x: int,
    hit: Option<RayCellIntersection>,
) -> (Seq<PixelWrite>, Option<Error>) {
    let tag = hit_tag(hit);
    let wall = hit_wall(hit);
    let l = column_layout(wall, height);
    let c0 = sky_column(x, hit, height);
    match world.sky_outcome(tag, c0) {
        Err(e) => (Seq::empty(), Some(e)),
        Ok(s1) => {
            let w1 = span_writes(x as u16, c0.screen_y as int, s1);
            let c1 = with_next_span(after_span(c0, s1.len() as int), l.wall_clipped as int, l.wall_clip_offset as int, wall);
            match world.wall_outcome(tag, c1) {
                Err(e) => (w1, Some(e)),
                Ok(s2) => {
                    let w2 = w1 + span_writes(x as u16, c1.screen_y as int, s2);
                    let c2 = with_next_span(after_span(c1, s2.len() as int), l.ground as int, l.ground_clip_offset as int, height);
                    match world.ground_outcome(tag, c2) {
                        Err(e) => (w2, Some(e)),
                        Ok(s3) => (w2 + span_writes(x as u16, c2.screen_y as int, s3), None),
                    }
                },
            }
        },
    }
}

/// What drawing columns `0..n` in order writes, stopping at the first error.
pub open spec fn frame_outcome<W: World + WorldRendering>(
    world: &W,
    params: &RaycastingParameters,
    camera: Camera,
    n: nat,
) -> (Seq<PixelWrite>, Option<Error>)
    decreases n,
{
    if n == 0 {
        (Seq::empty(), None)
    } else {
        let before = frame_outcome(world, params, camera, (n - 1) as nat);
        if before.1 is Some {
            before
        } else {
            let column = column_outcome(world, params, camera, n - 1);
            (before.0 + column.0, column.1)
        }
    }
}

/// Drawing more columns only extends what was written, and nothing is
/// drawn after an error.
pub proof fn lemma_frame_grows<W: World + WorldRendering>(
    world: &W,
    params: &RaycastingParameters,
    camera: Camera,
    n: nat,
    m: nat,
)
    requires
        n <= m,
    ensures
        is_prefix(frame_outcome(world, params, camera, n).0, frame_outcome(world, params, camera, m).0),
        frame_outcome(world, params, camera, n).1 is Some ==> frame_outcome(world, params, camera, m) == frame_outcome(
            world,
            params,
            camera,
            n,
        ),
    decreases m,
{
    let f = frame_outcome(world, params, camera, n).0;
    if n == m {
        assert(f.take(f.len() as int) =~= f);
    } else {
        lemma_frame_grows(world, params, camera, n, (m - 1) as nat);
        let before = frame_outcome(world, params, camera, (m - 1) as nat);
        if before.1 is None {
            let col = column_outcome(world, params, camera, m - 1);
            assert(col.0.take(0) =~= Seq::<PixelWrite>::empty());
            lemma_prefix_concat(before.0, Seq::empty(), col.0);
            assert(before.0 + Seq::<PixelWrite>::empty() =~= before.0);
            lemma_prefix_trans(f, before.0, before.0 + col.0);
        }
    }
}

/// Part of column `x`'s writes, after a frame drawn without error up to it,
/// is a prefix of the whole frame's writes.
proof fn lemma_partial_column<W: World + WorldRendering>(
    world: &W,
    params: &RaycastingParameters,
    camera: Camera,
    x: nat,
    width: nat,
    p: Seq<PixelWrite>,
)
    requires
        x < width,
        frame_outcome(world, params, camera, x).1 is None,
        is_prefix(p, column_outcome(world, params, camera, x as int).0),
    ensures
        is_prefix(frame_outcome(world, params, camera, x).0 + p, frame_outcome(world, params, camera, width).0),
        column_outcome(world, params, camera, x as int).1 is Some ==> frame_outcome(world, params, camera, width) == (
            frame_outcome(world, params, camera, x).0 + column_outcome(world, params, camera, x as int).0,
            column_outcome(world, params, camera, x as int).1,
        ),
{
    let before = frame_outcome(world, params, camera, x).0;
    let col = column_outcome(world, params, camera, x as int).0;
    lemma_prefix_concat(before, p, col);
    lemma_frame_grows(world, params, camera, x + 1, width);
    lemma_prefix_trans(before + p, before + col, frame_outcome(world, params, camera, width).0);
}

/// A world, the camera in it, and the state of the ray walk.
pub struct Scene<W: World + WorldRendering> {
    world: W,
    camera: Camera,
    raycasting_context: RaycastingContext,
    params: RaycastingParameters,
}

impl<W: World + WorldRendering> Scene<W> {
    pub closed spec fn world(&self) -> &W {
        &self.world
    }

    pub closed spec fn camera(&self) -> Camera {
        self.camera
    }

    pub closed spec fn params(&self) -> &RaycastingParameters {
        &self.params
    }

    pub closed spec fn context(&self) -> &RaycastingContext {
        &self.raycasting_context
    }

    /// What drawing this scene's frame writes, and its error if any.
    pub open spec fn frame(&self) -> (Seq<PixelWrite>, Option<Error>) {
        frame_outcome(self.world(), self.params(), self.camera(), self.params().width() as nat)
    }

    pub open spec fn wf(&self) -> bool {
        &&& self.params().wf()
        &&& self.camera().wf(self.params())
        &&& self.world().rendering_wf()
    }

    /// A scene with the camera at the world's spawn point and heading.
    pub fn new(world: W, params: RaycastingParameters) -> (r: Scene<W>)
        requires
            params.wf(),
            world.rendering_wf(),
        ensures
            r.wf(),
            *r.world() == world,
            *r.params() == params,
            r.camera().object().position == world.spawn_position(),
            r.camera().object().direction == world.spawn_heading(),
    {
        let object = Object::new(world.spawn_at(), world.spawn_angle());
        let camera = Camera::new(object, &params);
        Scene { world, camera, raycasting_context: RaycastingContext::default(), params }
    }

    pub fn camera_mut(&mut self) -> (r: &mut Camera)
        ensures
            *r == old(self).camera(),
            final(self).camera() == *final(r),
            *final(self).world() == *old(self).world(),
            *final(self).params() == *old(self).params(),
            *final(self).context() == *old(self).context(),
    {
        &mut self.camera
    }

    pub fn camera_view(&self) -> (r: &Camera)
        ensures
            *r == self.camera(),
    {
        &self.camera
    }

    /// Turns and moves the camera as the input asks.
    pub fn apply_stimuli<S: CameraStimuli>(&mut self, stimuli: &S)
        requires
            old(self).wf(),
        ensures
            final(self).wf(),
            *final(self).world() == *old(self).world(),
            *final(self).params() == *old(self).params(),
            ({
                let (turn, distance) = camera_response_spec(
                    stimuli.left_requested(),
                    stimuli.right_requested(),
                    stimuli.forward_requested(),
                    stimuli.backward_requested(),
                );
                &&& final(self).camera().object().direction@ == add_steps(
                    old(self).camera().object().direction@,
                    if turn < 0 { neg_steps(TURN_STEPS as int) } else { turn },
                )
                &&& final(self).camera().object().position.x as int == moved_coordinate(
                    old(self).camera().object().position.x as int,
                    final(self).camera().direction_vector_spec().x as int,
                    distance,
                )
                &&& final(self).camera().object().position.y as int == moved_coordinate(
                    old(self).camera().object().position.y as int,
                    final(self).camera().direction_vector_spec().y as int,
                    distance,
                )
            }),
    {
        let left = stimuli.should_turn_left();
        let right = stimuli.should_turn_right();
        let forward = stimuli.should_move_forward();
        let backward = stimuli.should_move_backward();
        let (turn, distance) = camera_response(left, right, forward, backward);
        let delta = if turn < 0 {
            Angle::from_raw(TURN_STEPS).neg()
        } else {
            Angle::from_raw(turn)
        };
        self.camera.turn(delta, &self.params);
        self.camera.move_relative(distance);
        assert(camera_response_spec(left, right, forward, backward) == (turn as int, distance as int));
    }

    /// Draws column `x`, whose ray hit `hit`: sky, wall and ground spans.
    #[verifier::rlimit(100)]
    fn draw_column<C: Canvas>(&self, x: u16, hit: Option<RayCellIntersection>, canvas: &mut C) -> (r: Result<(), Error>)
        requires
            self.wf(),
        ensures
            r is Ok ==> column_draw(self.world(), self.params().height(), x as int, hit).1 is None
                && final(canvas).writes() == old(canvas).writes() + column_draw(self.world(), self.params().height(), x as int, hit).0
                && final(canvas).refusals() == old(canvas).refusals(),
            r matches Err(e) ==> exists|p: Seq<PixelWrite>| {
                &&& #[trigger] is_prefix(p, column_draw(self.world(), self.params().height(), x as int, hit).0)
                &&& final(canvas).writes() == old(canvas).writes() + p
                &&& (final(canvas).refusals() == old(canvas).refusals() + 1 || (final(canvas).refusals()
                    == old(canvas).refusals() && p == column_draw(self.world(), self.params().height(), x as int, hit).0
                    && column_draw(self.world(), self.params().height(), x as int, hit).1 == Some(e)))
            },
    {
        let height = self.params.canvas_height_pixels();
        let tag: Option<CellTag> = match &hit {
            Some(i) => Some(i.cell_tag()),
            None => None,
        };
        let wall: u16 = match &hit {
            Some(i) => i.projected_wall_height_int(),
            None => 0,
        };
        let ghost col = column_draw(&self.world, height as int, x as int, hit);
        let ghost w0 = canvas.writes();
        let layout = column_spans(wall, height);
        let mut column = RenderingColumn::new(x, 0, hit);
        column.next_span(layout.sky, 0, height / 2);
        assert(column == sky_column(x as int, hit, height as int));
        let ghost c0 = column;
        let sky = self.world.sky_for_column(tag);
        match sky.render_column_onto(&mut column, canvas) {
            Ok(()) => {},
            Err(e) => {
                proof {
                    match self.world.sky_outcome(tag, c0) {
                        Err(e2) => {
                            assert(col.0 =~= Seq::<PixelWrite>::empty());
                            assert(col.0.take(0) =~= col.0);
                            assert(canvas.writes() =~= w0 + col.0);
                            assert(is_prefix(col.0, col.0));
                        },
                        Ok(s1) => {
                            let k = choose|k: int| 0 <= k <= s1.len() && canvas.writes() == w0 + span_writes(x, 0, s1.take(k));
                            let rest = col.0.subrange(span_writes(x, 0, s1).len() as int, col.0.len() as int);
                            assert(col.0 =~= Seq::<PixelWrite>::empty() + span_writes(x, 0, s1) + rest);
                            lemma_span_prefix_within(Seq::empty(), x, 0, s1, k, rest);
                            let p = span_writes(x, 0, s1.take(k));
                            assert(Seq::<PixelWrite>::empty() + p =~= p);
                            assert(is_prefix(p, col.0));
                        },
                    }
                }
                return Err(e);
            },
        }
        let ghost s1 = self.world.sky_outcome(tag, c0)->Ok_0;
        let ghost w1 = span_writes(x, 0, s1);
        column.next_span(layout.wall_clipped, layout.wall_clip_offset, wall);
        let ghost c1 = column;
        let wall_renderer = self.world.wall_for_column(tag);
        match wall_renderer.render_column_onto(&mut column, canvas) {
            Ok(()) => {},
            Err(e) => {
                proof {
                    match self.world.wall_outcome(tag, c1) {
                        Err(e2) => {
                            assert(col.0 == w1);
                            assert(col.0.take(col.0.len() as int) =~= col.0);
                            assert(is_prefix(col.0, col.0));
                        },
                        Ok(s2) => {
                            let k = choose|k: int| 0 <= k <= s2.len() && canvas.writes() == w0 + w1 + span_writes(x, c1.screen_y as int, s2.take(k));
                            let w2 = span_writes(x, c1.screen_y as int, s2);
                            let rest = col.0.subrange((w1 + w2).len() as int, col.0.len() as int);
                            assert(col.0 =~= w1 + w2 + rest);
                            lemma_span_prefix_within(w1, x, c1.screen_y as int, s2, k, rest);
                            let p = w1 + span_writes(x, c1.screen_y as int, s2.take(k));
                            assert(canvas.writes() =~= w0 + p);
                            assert(is_prefix(p, col.0));
                        },
                    }
                }
                return Err(e);
            },
        }
        let ghost s2 = self.world.wall_outcome(tag, c1)->Ok_0;
        let ghost w2 = span_writes(x, c1.screen_y as int, s2);
        column.next_span(layout.ground, layout.ground_clip_offset, height);
        let ghost c2 = column;
        let ground = self.world.ground_for_column(tag);
        match ground.render_column_onto(&mut column, canvas) {
            Ok(()) => {},
            Err(e) => {
                proof {
                    match self.world.ground_outcome(tag, c2) {
                        Err(e2) => {
                            assert(col.0 == w1 + w2);
                            assert(canvas.writes() =~= w0 + col.0);
                            assert(col.0.take(col.0.len() as int) =~= col.0);
                            assert(is_prefix(col.0, col.0));
                        },
                        Ok(s3) => {
                            let k = choose|k: int| 0 <= k <= s3.len() && canvas.writes() == w0 + w1 + w2 + span_writes(x, c2.screen_y as int, s3.take(k));
                            let rest = Seq::<PixelWrite>::empty();
                            assert(col.0 =~= (w1 + w2) + span_writes(x, c2.screen_y as int, s3) + rest);
                            lemma_span_prefix_within(w1 + w2, x, c2.screen_y as int, s3, k, rest);
                            let p = (w1 + w2) + span_writes(x, c2.screen_y as int, s3.take(k));
                            assert(canvas.writes() =~= w0 + p);
                            assert(is_prefix(p, col.0));
                        },
                    }
                }
                return Err(e);
            },
        }
        proof {
            assert(canvas.writes() =~= w0 + col.0);
        }
        Ok(())
    }

    /// Casts one ray per canvas column and composites each column: sky above
    /// the wall, the wall centred and clipped to the canvas, ground below.
    /// Stops at the first error.
    pub fn render_frame<C: Canvas>(&mut self, canvas: &mut C) -> (r: Result<(), Error>)
        requires
            old(self).wf(),
        ensures
            final(self).wf(),
            final(self).camera() == old(self).camera(),
            *final(self).world() == *old(self).world(),
            *final(self).params() == *old(self).params(),
            r is Ok ==> final(self).context().column() == old(self).params().width(),
            r is Ok ==> frame_outcome(old(self).world(), old(self).params(), old(self).camera(), old(self).params().width() as nat).1 is None,
            r is Ok ==> final(canvas).writes() == old(canvas).writes()
                + frame_outcome(old(self).world(), old(self).params(), old(self).camera(), old(self).params().width() as nat).0,
            frame_outcome(old(self).world(), old(self).params(), old(self).camera(), old(self).params().width() as nat).1 is Some
                ==> r is Err,
            r is Ok ==> final(canvas).refusals() == old(canvas).refusals(),
            r matches Err(e) ==> exists|p: Seq<PixelWrite>| {
                &&& final(canvas).writes() == old(canvas).writes() + p
                &&& #[trigger] is_prefix(p, old(self).frame().0)
                &&& (final(canvas).refusals() == old(canvas).refusals() + 1 || (final(canvas).refusals()
                    == old(canvas).refusals() && p == old(self).frame().0 && old(self).frame().1 == Some(e)))
            },
    {
        match self.raycasting_context.on_frame_start(&self.camera, &self.params) {
            Ok(()) => {},
            Err(e) => {
                return Err(e);
            },
        }
        let width = self.params.canvas_width_pixels();
        let height = self.params.canvas_height_pixels();
        let mut x: u16 = 0;
        let mut more = true;
        proof {
            assert(old(canvas).writes() + Seq::<PixelWrite>::empty() =~= old(canvas).writes());
        }
        while more
            invariant
                self.params.wf(),
                self.camera.wf(&self.params),
                self.world.rendering_wf(),
                self.camera == old(self).camera(),
                self.world == *old(self).world(),
                self.params == *old(self).params(),
                width == self.params.width(),
                height == self.params.height(),
                more ==> x < width && self.raycasting_context.column() == x,
                !more ==> self.raycasting_context.column() == width,
                more ==> self.raycasting_context.origin() == self.camera.object().position
                    && self.raycasting_context.camera_direction() == self.camera.direction_vector_spec()
                    && self.raycasting_context.plane() == self.camera.projection_plane_vector_spec()
                    && self.raycasting_context.direction() == column_ray(&self.params, self.camera.direction_vector_spec(), self.camera.projection_plane_vector_spec(), x as int)
                    && self.raycasting_context.walk_state() == column_walk(self.camera.object().position, self.raycasting_context.direction()),
                frame_outcome(&self.world, &self.params, self.camera, (if more { x as int } else { width as int }) as nat).1 is None,
                canvas.writes() == old(canvas).writes() + frame_outcome(&self.world, &self.params, self.camera, (if more { x as int } else { width as int }) as nat).0,
                canvas.refusals() == old(canvas).refusals(),
            decreases (width - x) * 2 + if more { 1int } else { 0int },
        {
            match self.raycasting_context.cast_ray(&self.world, &self.params) {
                Ok(()) => {},
                Err(e) => {
                    return Err(e);
                },
            }
            let intersection = self.raycasting_context.cell_intersection(&self.params);
            let ghost hit = column_hit(
                &self.world,
                &self.params,
                self.camera.object().position,
                self.camera.direction_vector_spec(),
                self.camera.projection_plane_vector_spec(),
                x as int,
            );
            assert(intersection == hit);
            let ghost fx = frame_outcome(&self.world, &self.params, self.camera, x as nat);
            let ghost col = column_outcome(&self.world, &self.params, self.camera, x as int);
            let ghost w0 = canvas.writes();
            match self.draw_column(x, intersection, canvas) {
                Ok(()) => {},
                Err(e) => {
                    proof {
                        let p = choose|p: Seq<PixelWrite>| #[trigger] is_prefix(p, col.0) && canvas.writes() == w0 + p
                            && (canvas.refusals() == old(canvas).refusals() + 1 || (canvas.refusals() == old(canvas).refusals()
                            && p == col.0 && col.1 == Some(e)));
                        lemma_partial_column(&self.world, &self.params, self.camera, x as nat, width as nat, p);
                        assert(canvas.writes() =~= old(canvas).writes() + (fx.0 + p));
                        assert(is_prefix(fx.0 + p, old(self).frame().0));
                    }
                    return Err(e);
                },
            }
            proof {
                let n = x as nat;
                assert(col.1 is None);
                assert(frame_outcome(&self.world, &self.params, self.camera, n + 1) == (fx.0 + col.0, col.1));
                assert(canvas.writes() =~= old(canvas).writes() + (fx.0 + col.0));
            }
            match self.raycasting_context.next_column(&self.params) {
                Ok(true) => {
                    x = x + 1;
                },
                Ok(false) => {
                    more = false;
                },
                Err(e) => {
                    return Err(e);
                },
            }
        }
        Ok(())
    }
}

impl<W: World + WorldRendering, T: Stimuli + CameraStimuli> OnStimuli<T> for Scene<W> {
    open spec fn ready(&self) -> bool {
        self.wf()
    }

    fn on_stimuli(&mut self, stimuli: &T) -> (r: Result<(), Error>) {
        self.apply_stimuli(stimuli);
        Ok(())
    }
}

impl<W: World + WorldRendering, C: Canvas> FrameRenderer<C> for Scene<W> {
    open spec fn ready_to_render(&self) -> bool {
        self.wf()
    }

    fn render_frame_onto(&mut self, canvas: &mut C) -> (r: Result<(), Error>) {
        self.render_frame(canvas)
    }
}

/// In the demonstration world a frame raises no error of the library's own:
/// wall heights are even, so a wall span is never one row long, and its clip
/// offset stays inside it; only the sink can stop a frame.
pub proof fn lemma_demo_frame_succeeds(scene: &Scene<World1>, n: nat)
    requires
        scene.wf(),
    ensures
        frame_outcome(scene.world(), scene.params(), scene.camera(), n).1 is None,
    decreases n,
{
    if n > 0 {
        lemma_demo_frame_succeeds(scene, (n - 1) as nat);
        let world = scene.world();
        let params = scene.params();
        let camera = scene.camera();
        let x = n - 1;
        let hit = column_hit(
            world,
            params,
            camera.object().position,
            camera.direction_vector_spec(),
            camera.projection_plane_vector_spec(),
            x,
        );
        let tag = hit_tag(hit);
        let wall = hit_wall(hit);
        let height = params.height();
        let l = column_layout(wall, height);
        let c0 = sky_column(x, hit, height);
        assert(0 <= wall <= 0x800 && wall % 2 == 0) by {
            match hit {
                Some(i) => {
                    let q = i.projected_wall_height as int / 0x20_0000;
                    assert(q <= 0x7ff);
                    assert((q / 2 * 2) % 2 == 0);
                },
                None => {},
            }
        }
        lemma_world1_spans_succeed(world, tag, c0);
        let s1 = world.sky_outcome(tag, c0)->Ok_0;
        let c1 = with_next_span(after_span(c0, s1.len() as int), l.wall_clipped as int, l.wall_clip_offset as int, wall);
        assert(c1.unclipped_span_length == 0 || (c1.span_clip_offset < c1.unclipped_span_length
            && c1.unclipped_span_length >= 2));
        lemma_world1_spans_succeed(world, tag, c1);
        let s2 = world.wall_outcome(tag, c1)->Ok_0;
        let c2 = with_next_span(after_span(c1, s2.len() as int), l.ground as int, l.ground_clip_offset as int, height);
        assert(c2.span_clip_offset < c2.unclipped_span_length && c2.unclipped_span_length >= 2);
        lemma_world1_spans_succeed(world, tag, c2);
    }
}

} // verus!
