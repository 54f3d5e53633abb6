use notray::angle::Angle;
use notray::context::RayCellIntersection;
use notray::assets::{Palette, TextureRenderer, Textures};
use notray::canvas::{Canvas, Colour, FrameBuffer};
use notray::coordinates::{Vector2d, WorldCoordinates, FACING_SOUTH};
use notray::input::{Key, KeyState, KeyboardState, KeyboardStimuli};
use notray::parameters::RaycastingParameters;
use notray::rendering::{column_spans, texel_rows, ColumnRendering, RenderingColumn, SolidColourColumnRenderer, TextureMappedColumnRenderer};
use notray::result::Error;
use notray::scene::{camera_response, Scene};
use notray::stimuli::{CameraStimuli, FrameRenderer, OnStimuli, QuitStimuli};
use notray::texture::{RepeatedStaticTexture, StretchedStaticTexture, Texture};
use notray::trigonometry::{SineTable, SineTableSpan};
use notray::world::{CellTag, World1, WorldRendering};

struct BufferCanvas {
    width: usize,
    pixels: Vec<Option<u8>>,
    fail_at_row: Option<u16>,
}

impl BufferCanvas {
    fn new(width: usize, height: usize) -> Self {
        BufferCanvas { width, pixels: vec![None; width * height], fail_at_row: None }
    }

    fn at(&self, x: usize, y: usize) -> Option<u8> {
        self.pixels[y * self.width + x]
    }
}

impl Canvas for BufferCanvas {
    fn set_pixel(&mut self, x: u16, y: u16, colour: Colour) -> Result<(), Error> {
        if self.fail_at_row == Some(y) {
            return Err(Error::Str("sink refused the pixel"));
        }
        self.pixels[y as usize * self.width + x as usize] = Some(colour.as_index());
        Ok(())
    }
}

fn sine_table() -> SineTable {
    let entries = (0..64)
        .map(|i| ((i as f64 * 90.0 / 64.0).to_radians().sin() * 32768.0).round().min(32767.0) as i16)
        .collect();
    SineTable::new(SineTableSpan::QuarterTurn, 6, entries).unwrap()
}

fn params(width: u16, height: u16) -> RaycastingParameters {
    let plane = ((0.5f64 * 62.5).to_radians().tan() * 32768.0).round() as i16;
    RaycastingParameters::new(width, height, plane, 64, sine_table()).unwrap()
}

fn gradient(width: u8, height: u8) -> Vec<u8> {
    (0..height as usize * width as usize).map(|i| (i % 251) as u8 + 1).collect()
}

#[test]
fn colour_keeps_its_index() {
    assert_eq!(Colour::new(76).as_index(), 76);
    assert_eq!(CellTag::from_world_cell_id(9).world_cell_id(), 9);
}

#[test]
fn column_spans_sum_to_canvas_height() {
    let l = column_spans(100, 240);
    assert_eq!((l.sky, l.wall_clipped, l.ground), (70, 100, 70));
    assert_eq!(l.wall_clip_offset, 0);
    assert_eq!(l.ground_clip_offset, 50);
    let tall = column_spans(400, 240);
    assert_eq!((tall.sky, tall.wall_clipped, tall.ground), (0, 240, 0));
    assert_eq!(tall.wall_clip_offset, 80);
    let none = column_spans(0, 240);
    assert_eq!((none.sky, none.wall_clipped, none.ground), (120, 0, 120));
    for wall in (0..2048u16).step_by(2) {
        let l = column_spans(wall, 240);
        assert_eq!(l.sky + l.wall_clipped + l.ground, 240);
    }
}

#[test]
fn texel_rows_start_and_step() {
    assert_eq!(texel_rows(0, 4).unwrap(), (0, 0x4000));
    assert_eq!(texel_rows(80, 400).unwrap(), (13107, 163));
    assert!(matches!(texel_rows(4, 4), Err(Error::TextureMappingOverflowY)));
    assert!(matches!(texel_rows(0, 1), Err(Error::TextureMappingOverflowDeltaY)));
}

#[test]
fn stretched_sampling_rounds_and_clamps() {
    let t = StretchedStaticTexture::new(gradient(4, 2), 4, 2, 0xff00).unwrap();
    assert_eq!(t.get_texel_at(Vector2d::new(0, 0)), Some(Colour::new(1)));
    assert_eq!(t.get_texel_at(Vector2d::new(0x2000, 0)), Some(Colour::new(2)));
    assert_eq!(t.get_texel_at(Vector2d::new(0xffff, 0xffff)), Some(Colour::new(8)));
    let mut last = 0;
    for u in (0..=0xffffu32).step_by(251) {
        let c = t.get_texel_at(Vector2d::new(u as u16, 0)).unwrap().as_index();
        assert!(c >= last && c <= 4);
        last = c;
    }
    assert!(StretchedStaticTexture::new(gradient(3, 2), 3, 2, 0).is_none());
    assert!(StretchedStaticTexture::new(vec![1; 7], 4, 2, 0).is_none());
}

#[test]
fn repeated_sampling_is_periodic() {
    let t = RepeatedStaticTexture::new(gradient(4, 8), 4, 8, 0xff00).unwrap();
    for u in (0..0xfc00u32).step_by(113) {
        for v in [0u32, 0x123, 0x7ff] {
            let a = t.get_texel_at(Vector2d::new(u as u16, v as u16));
            let b = t.get_texel_at(Vector2d::new((u + 0x400) as u16, v as u16));
            let c = t.get_texel_at(Vector2d::new(u as u16, (v + 0x800) as u16));
            assert_eq!(a, b);
            assert_eq!(a, c);
        }
    }
    assert_eq!(t.get_texel_at(Vector2d::new(0x0100, 0x0000)), Some(Colour::new(2)));
    assert_eq!(t.get_texel_at(Vector2d::new(0x0500, 0x0100)), Some(Colour::new(6)));
}

#[test]
fn transparent_texels_are_skipped() {
    let t = RepeatedStaticTexture::new(vec![0, 5], 2, 1, 0).unwrap();
    assert_eq!(t.get_texel_at(Vector2d::new(0, 0)), None);
    assert_eq!(t.get_texel_at(Vector2d::new(0x100, 0)), Some(Colour::new(5)));
}

#[test]
fn solid_renderer_fills_its_span() {
    let mut canvas = BufferCanvas::new(4, 10);
    let mut column = RenderingColumn::new(2, 0, None);
    column.next_span(3, 0, 5);
    SolidColourColumnRenderer::new(Colour::new(7)).render_column_onto(&mut column, &mut canvas).unwrap();
    assert_eq!(column.screen_y, 3);
    column.next_span(4, 0, 4);
    SolidColourColumnRenderer::new(Colour::new(9)).render_column_onto(&mut column, &mut canvas).unwrap();
    assert_eq!(column.screen_y, 7);
    assert_eq!(canvas.at(2, 0), Some(7));
    assert_eq!(canvas.at(2, 2), Some(7));
    assert_eq!(canvas.at(2, 3), Some(9));
    assert_eq!(canvas.at(2, 6), Some(9));
    assert_eq!(canvas.at(2, 7), None);
    assert_eq!(canvas.at(1, 0), None);
}

#[test]
fn sink_errors_stop_the_renderer() {
    let mut canvas = BufferCanvas::new(2, 10);
    canvas.fail_at_row = Some(2);
    let mut column = RenderingColumn::new(0, 0, None);
    column.next_span(5, 0, 5);
    let r = SolidColourColumnRenderer::new(Colour::new(1)).render_column_onto(&mut column, &mut canvas);
    assert!(matches!(r, Err(Error::Str(_))));
    assert_eq!(column.screen_y, 2);
}

#[test]
fn texture_renderer_skips_columns_without_wall() {
    let t = StretchedStaticTexture::new(gradient(2, 2), 2, 2, 0xff00).unwrap();
    let mut canvas = BufferCanvas::new(2, 4);
    let mut column = RenderingColumn::new(0, 0, None);
    column.next_span(4, 0, 4);
    TextureMappedColumnRenderer::new(&t).render_column_onto(&mut column, &mut canvas).unwrap();
    assert_eq!(column.screen_y, 0);
    assert!(canvas.pixels.iter().all(|p| p.is_none()));
}

#[test]
fn palette_looks_up_triples() {
    let rgb: Vec<u8> = (0..768).map(|i| (i % 256) as u8).collect();
    let palette = Palette::new(rgb).unwrap();
    assert_eq!(palette.rgb_for(Colour::new(1)), (3, 4, 5));
    assert_eq!(palette.rgb_for(Colour::new(255)), (253, 254, 255));
    assert!(Palette::new(vec![0; 767]).is_none());
}

#[test]
fn textures_pick_renderer_by_cell() {
    let textures = Textures::new(gradient(64, 64), gradient(64, 64)).unwrap();
    assert!(matches!(textures.new_renderer_for(Some(CellTag::from_world_cell_id(1))), TextureRenderer::Brick1(_)));
    assert!(matches!(textures.new_renderer_for(Some(CellTag::from_world_cell_id(2))), TextureRenderer::Stone1(_)));
    assert!(matches!(textures.new_renderer_for(Some(CellTag::from_world_cell_id(3))), TextureRenderer::Unknown(_)));
    assert!(matches!(textures.new_renderer_for(None), TextureRenderer::Unknown(_)));
    assert!(Textures::new(vec![0; 10], gradient(64, 64)).is_none());
    let world = World1::new();
    assert!(matches!(world.wall_for_column(None), TextureRenderer::Unknown(_)));
}

#[test]
fn scene_renders_every_pixel_of_a_frame() {
    let p = params(128, 64);
    let mut scene = Scene::new(World1::new(), p);
    let mut canvas = BufferCanvas::new(128, 64);
    scene.render_frame_onto(&mut canvas).unwrap();
    assert!(canvas.pixels.iter().all(|p| p.is_some()));
    for x in 0..128 {
        assert_eq!(canvas.at(x, 0).unwrap() == Palette::SKY_LIGHTEST || canvas.at(x, 0).unwrap() == 76, true);
        assert_eq!(canvas.at(x, 63).unwrap() == Palette::GRASS_LIGHTEST || canvas.at(x, 63).unwrap() == 76, true);
    }
    assert_eq!(canvas.at(64, 32), Some(76));
}

#[test]
fn textured_scene_draws_brick() {
    let p = params(128, 64);
    let mut world = World1::new();
    world.set_textures(Textures::new(vec![200; 64 * 64], vec![100; 64 * 64]).unwrap());
    let mut scene = Scene::new(world, p);
    let mut canvas = BufferCanvas::new(128, 64);
    scene.render_frame_onto(&mut canvas).unwrap();
    assert_eq!(canvas.at(64, 32), Some(200));
}

#[test]
fn keyboard_state_tracks_presses() {
    let mut state = KeyboardState::new();
    state.on_key_pressed(Key::Up, false);
    assert_eq!(state.up_arrow, KeyState::new(true, false, true));
    state.reset();
    assert_eq!(state.up_arrow, KeyState::new(false, true, true));
    state.on_key_pressed(Key::Up, true);
    assert_eq!(state.up_arrow, KeyState::new(true, true, false));
    assert_eq!(state.shift, KeyState::new(true, false, true));
    state.reset();
    state.reset();
    assert_eq!(state.up_arrow, KeyState::default());
    assert_eq!(KeyboardState::reset_key_state(KeyState::new(true, false, true)), KeyState::new(false, true, true));
    assert_eq!(KeyboardState::set_key_state(KeyState::new(false, true, true)), KeyState::new(true, true, false));
}

#[test]
fn keyboard_stimuli_steer_and_quit() {
    let mut state = KeyboardState::new();
    state.on_key_pressed(Key::Left, false);
    let s = KeyboardStimuli::new(&state);
    assert!(s.should_turn_left() && !s.should_turn_right() && !s.should_quit() && !s.is_fast());
    assert!(!s.should_move_forward() && !s.should_move_backward());
    state.on_key_pressed(Key::Escape, false);
    assert!(KeyboardStimuli::new(&state).should_quit());
    let mut q = KeyboardState::new();
    q.on_key_pressed(Key::Q, false);
    assert!(KeyboardStimuli::new(&q).should_quit());
}

#[test]
fn camera_response_prefers_left_and_forward() {
    assert_eq!(camera_response(true, true, true, true), (0x0400, 0x0020));
    assert_eq!(camera_response(false, true, false, true), (-0x0400, -0x0020));
    assert_eq!(camera_response(false, false, false, false), (0, 0));
}

#[test]
fn stimuli_turn_and_move_the_camera() {
    let p = params(128, 64);
    let mut scene = Scene::new(World1::new(), p);
    let mut state = KeyboardState::new();
    state.on_key_pressed(Key::Up, false);
    scene.on_stimuli(&KeyboardStimuli::new(&state)).unwrap();
    let camera = scene.camera_view();
    assert_eq!(camera.direction(), Angle::from_raw(FACING_SOUTH));
    let moved = camera.position();
    assert_eq!(moved.x(), WorldCoordinates::from_cell_centre(2, 2).x());
    assert!(moved.y() > 0x280 && moved.y() <= 0x2a0);
    let mut turn = KeyboardState::new();
    turn.on_key_pressed(Key::Right, false);
    scene.on_stimuli(&KeyboardStimuli::new(&turn)).unwrap();
    assert_eq!(scene.camera_view().direction().steps(), 0xc000 - 0x0400);
}

fn wall_hit() -> RayCellIntersection {
    RayCellIntersection::new(
        WorldCoordinates::from_cell_centre(2, 2),
        Vector2d::new(0, 1 << 24),
        0,
        4 << 21,
        false,
        CellTag::from_world_cell_id(1),
    )
}

#[test]
fn texture_span_samples_rows_down_the_wall() {
    let t = StretchedStaticTexture::new(gradient(4, 4), 4, 4, 0xff00).unwrap();
    let renderer = TextureMappedColumnRenderer::new(&t);
    let mut column = RenderingColumn::new(1, 0, Some(wall_hit()));
    column.next_span(4, 0, 4);
    let texels = renderer.span_texels(&column).unwrap();
    let indices: Vec<u8> = texels.iter().map(|t| t.unwrap().as_index()).collect();
    assert_eq!(indices, vec![3, 7, 11, 15]);
    let mut canvas = BufferCanvas::new(2, 4);
    renderer.render_column_onto(&mut column, &mut canvas).unwrap();
    assert_eq!(column.screen_y, 4);
    assert_eq!((0..4).map(|y| canvas.at(1, y).unwrap()).collect::<Vec<u8>>(), vec![3, 7, 11, 15]);
}

#[test]
fn clipped_texture_span_starts_part_way_down() {
    let t = StretchedStaticTexture::new(gradient(4, 4), 4, 4, 0xff00).unwrap();
    let renderer = TextureMappedColumnRenderer::new(&t);
    let mut column = RenderingColumn::new(0, 0, Some(wall_hit()));
    column.next_span(2, 2, 8);
    let indices: Vec<u8> = renderer.span_texels(&column).unwrap().iter().map(|t| t.unwrap().as_index()).collect();
    assert_eq!(indices, vec![7, 11]);
    column.next_span(0, 0, 1);
    assert!(matches!(renderer.span_texels(&column), Err(Error::TextureMappingOverflowDeltaY)));
}

#[test]
fn textures_accept_longer_buffers() {
    let t = RepeatedStaticTexture::new(gradient(4, 4), 2, 2, 0xff00).unwrap();
    assert_eq!(t.get_texel_at(Vector2d::new(0x100, 0x100)), Some(Colour::new(4)));
    assert!(StretchedStaticTexture::new(vec![1; 9], 2, 4, 0).is_some());
    assert!(Textures::new(vec![1; 64 * 64 + 5], vec![2; 64 * 64]).is_some());
}

#[test]
fn frame_stops_at_the_first_refused_write() {
    let p = params(128, 64);
    let mut scene = Scene::new(World1::new(), p);
    let mut canvas = BufferCanvas::new(128, 64);
    canvas.fail_at_row = Some(10);
    assert!(matches!(scene.render_frame_onto(&mut canvas), Err(Error::Str(_))));
    assert!(canvas.at(0, 9).is_some());
    assert!(canvas.at(0, 11).is_none());
    assert!(canvas.at(1, 0).is_none());
}

#[test]
fn reset_keyboard_asks_for_nothing() {
    let mut state = KeyboardState::new();
    state.on_key_pressed(Key::Up, true);
    state.on_key_pressed(Key::Left, false);
    state.reset();
    let s = KeyboardStimuli::new(&state);
    assert!(!s.should_move_forward() && !s.should_move_backward() && !s.should_turn_left());
    assert!(!s.should_turn_right() && !s.is_fast() && !s.should_quit());
}

#[test]
fn frame_buffer_stores_and_refuses() {
    let mut fb = FrameBuffer::new(4, 3);
    assert_eq!(fb.pixel(1, 2), Some(0));
    fb.set_pixel(1, 2, Colour::new(9)).unwrap();
    assert_eq!(fb.pixel(1, 2), Some(9));
    assert!(matches!(fb.set_pixel(4, 0, Colour::new(1)), Err(Error::Str(_))));
    assert_eq!(fb.pixel(4, 0), None);
}

#[test]
fn scene_renders_into_frame_buffer() {
    let mut scene = Scene::new(World1::new(), params(128, 64));
    let mut fb = FrameBuffer::new(128, 64);
    scene.render_frame_onto(&mut fb).unwrap();
    assert_eq!(fb.pixel(64, 0), Some(Palette::SKY_LIGHTEST));
    assert_eq!(fb.pixel(64, 32), Some(76));
    assert_eq!(fb.pixel(64, 63), Some(Palette::GRASS_LIGHTEST));
}
