use notray::angle::Angle;
use notray::camera::Camera;
use notray::context::{wall_height_for, RaycastingContext, NO_WALL_DISTANCE};
use notray::coordinates::{Object, WorldCoordinates, FACING_EAST, FACING_SOUTH};
use notray::parameters::RaycastingParameters;
use notray::trigonometry::{ConfigurationError, SineTable, SineTableSpan, Trigonometry};
use notray::world::{CellProbe, CellProbeResult, World, World1};

fn to_i1f15(v: f64) -> i16 {
    let v = v.clamp(-0.999999, 0.999999);
    (v * 32768.0).round().clamp(-32767.0, 32767.0) as i16
}

fn sine_entries(span: SineTableSpan, msbs: u8) -> Vec<i16> {
    let n = 1usize << msbs;
    let span_degrees = match span {
        SineTableSpan::QuarterTurn => 90.0,
        SineTableSpan::FullTurn => 360.0,
    };
    (0..n)
        .map(|i| to_i1f15((i as f64 * span_degrees / n as f64).to_radians().sin()))
        .collect()
}

fn table(span: SineTableSpan, msbs: u8) -> SineTable {
    SineTable::new(span, msbs, sine_entries(span, msbs)).unwrap()
}

fn plane_y(fov_degrees: f64) -> i16 {
    to_i1f15((0.5 * fov_degrees).to_radians().tan())
}

fn params(width: u16, height: u16) -> RaycastingParameters {
    RaycastingParameters::new(width, height, plane_y(62.5), 64, table(SineTableSpan::QuarterTurn, 6)).unwrap()
}

fn bordered_world() -> World1 {
    let mut cells = vec![0u8; 256];
    for i in 0..16 {
        cells[i] = 1;
        cells[15 * 16 + i] = 2;
        cells[i * 16] = 1;
        cells[i * 16 + 15] = 1;
    }
    World1::from_cells(cells, 16, 16, WorldCoordinates::from_cell_centre(2, 2), Angle::from_raw(FACING_SOUTH)).unwrap()
}

fn cast_centre(world: &World1, heading: i16, p: &RaycastingParameters) -> RaycastingContext {
    let camera = Camera::new(Object::new(WorldCoordinates::from_cell_centre(2, 2), Angle::from_raw(heading)), p);
    let mut context = RaycastingContext::default();
    context.on_frame_start(&camera, p).unwrap();
    while context.canvas_column_x() < p.canvas_width_pixels() / 2 {
        assert!(context.next_column(p).unwrap());
    }
    context.cast_ray(world, p).unwrap();
    context
}

#[test]
fn angle_addition_wraps_modulo_full_turn() {
    let a = Angle::from_steps(0xf000);
    let b = Angle::from_steps(0x2000);
    assert_eq!(a.add(b).steps(), 0x1000);
    assert_eq!(Angle::from_steps(0x7fff).add(Angle::from_steps(1)).steps(), 0x8000);
    assert_eq!(Angle::from_steps(0x8000).add(Angle::from_steps(0x8000)).steps(), 0);
}

#[test]
fn angle_plus_its_negation_is_zero() {
    for s in [0u16, 1, 0x4000, 0x7fff, 0x8000, 0x8001, 0xc000, 0xffff] {
        let a = Angle::from_steps(s);
        assert_eq!(a.add(a.neg()), Angle::default());
    }
    assert_eq!(Angle::from_steps(0x8000).neg().steps(), 0x8000);
    let mut a = Angle::from_steps(0xfff0);
    a.add_assign(Angle::from_steps(0x20));
    assert_eq!(a.steps(), 0x10);
}

#[test]
fn angle_division_truncates() {
    assert_eq!(Angle::from_raw(0x4000).div(4).to_fixed_point(), 0x1000);
    assert_eq!(Angle::from_raw(-7).div(2).to_fixed_point(), -3);
    assert_eq!(Angle::from_raw(i16::MIN).div(-1).to_fixed_point(), i16::MIN);
}

#[test]
fn quadrant_axes_satisfy_only_their_own_pair() {
    let axis01 = Angle::from_steps(0x4000);
    assert!(axis01.is_quadrant_axis_0_and_1());
    assert!(axis01.is_within_quadrant_0_or_1());
    assert!(!axis01.is_within_quadrant_1_or_2());
    assert!(!axis01.is_within_quadrant_2_or_3());
    assert!(!axis01.is_within_quadrant_3_or_0());
    let axis30 = Angle::from_steps(0);
    assert!(axis30.is_quadrant_axis_3_and_0());
    assert!(axis30.is_within_quadrant_3_or_0());
    assert!(!axis30.is_within_quadrant_0_or_1());
    let axis12 = Angle::from_steps(0x8000);
    assert!(axis12.is_quadrant_axis_1_and_2());
    assert!(axis12.is_within_quadrant_1_or_2());
    assert!(!axis12.is_within_quadrant_2_or_3());
    let axis23 = Angle::from_steps(0xc000);
    assert!(axis23.is_quadrant_axis_2_and_3());
    assert!(axis23.is_within_quadrant_2_or_3());
    assert!(!axis23.is_within_quadrant_3_or_0());
}

#[test]
fn quadrant_pairs_that_share_no_quadrant_are_disjoint() {
    for s in (0..=0xffffu32).step_by(0x101) {
        let a = Angle::from_steps(s as u16);
        assert!(!(a.is_within_quadrant_0_or_1() && a.is_within_quadrant_2_or_3()));
        assert!(!(a.is_within_quadrant_1_or_2() && a.is_within_quadrant_3_or_0()));
        assert!(a.is_within_quadrant_0_or_1() || a.is_within_quadrant_1_or_2()
            || a.is_within_quadrant_2_or_3() || a.is_within_quadrant_3_or_0());
    }
    assert!(Angle::from_steps(0x2000).is_within_quadrant_3_or_0());
    assert!(!Angle::from_steps(0x6000).is_within_quadrant_3_or_0());
}

#[test]
fn sine_table_rejects_bad_configurations() {
    assert_eq!(SineTable::new(SineTableSpan::QuarterTurn, 5, vec![0; 32]).unwrap_err(), ConfigurationError::SineLookupResolution);
    assert_eq!(SineTable::new(SineTableSpan::FullTurn, 7, vec![0; 128]).unwrap_err(), ConfigurationError::SineLookupResolution);
    assert_eq!(SineTable::new(SineTableSpan::QuarterTurn, 6, vec![0; 63]).unwrap_err(), ConfigurationError::SineLookupSize);
    let mut entries = vec![0; 64];
    entries[3] = i16::MIN;
    assert_eq!(SineTable::new(SineTableSpan::QuarterTurn, 6, entries).unwrap_err(), ConfigurationError::SineLookupEntry);
}

#[test]
fn sine_lookup_on_exact_entries() {
    let t = table(SineTableSpan::QuarterTurn, 6);
    let entries = sine_entries(SineTableSpan::QuarterTurn, 6);
    assert_eq!(t.sine(Angle::from_steps(0)), 0);
    assert_eq!(t.sine(Angle::from_steps(0x100)), entries[1]);
    assert_eq!(t.sine(Angle::from_steps(0x8100)), -entries[1]);
    assert_eq!(t.sine(Angle::from_steps(0x4000)), entries[63]);
    assert_eq!(t.cosine(Angle::from_steps(0)), entries[63]);
    let half = (entries[1] as i32 + (entries[2] as i32 - entries[1] as i32).div_euclid(2)) as i16;
    assert_eq!(t.sine(Angle::from_steps(0x180)), half);
}

#[test]
fn sine_and_cosine_track_the_reference_for_every_configuration() {
    let configurations = (6..=14u8)
        .map(|m| (SineTableSpan::QuarterTurn, m))
        .chain((8..=16u8).map(|m| (SineTableSpan::FullTurn, m)));
    for (span, msbs) in configurations {
        let t = table(span, msbs);
        let entries_per_turn = match span {
            SineTableSpan::QuarterTurn => 4.0 * (1u32 << msbs) as f64,
            SineTableSpan::FullTurn => (1u32 << msbs) as f64,
        };
        let step = std::f64::consts::TAU / entries_per_turn;
        let tolerance = step + 2.0 / 32768.0;
        for s in (0..0x10000u32).step_by(37) {
            let a = Angle::from_steps(s as u16);
            let radians = s as f64 * std::f64::consts::TAU / 65536.0;
            let sine = t.sine(a) as f64 / 32768.0;
            let cosine = t.cosine(a) as f64 / 32768.0;
            assert!((sine - radians.sin()).abs() <= tolerance, "{:?} {} {}", span, msbs, s);
            assert!((cosine - radians.cos()).abs() <= tolerance, "{:?} {} {}", span, msbs, s);
        }
    }
}

#[test]
fn parameters_derive_projection_constants() {
    let p = params(400, 240);
    assert_eq!(p.canvas_column_normalising_factor(), 327);
    assert_eq!(p.aspect_ratio_for_wall_height(), 144 << 21);
    assert_eq!(p.canvas_width_pixels(), 400);
    assert_eq!(p.canvas_height_pixels(), 240);
}

#[test]
fn parameters_reject_invalid_canvas() {
    let make = |w: u16, h: u16, y: i16| {
        RaycastingParameters::new(w, h, y, 64, table(SineTableSpan::QuarterTurn, 6)).unwrap_err()
    };
    assert_eq!(make(100, 240, 100), ConfigurationError::CanvasWidth);
    assert_eq!(make(401, 240, 100), ConfigurationError::CanvasWidth);
    assert_eq!(make(400, 2000, 100), ConfigurationError::CanvasHeight);
    assert_eq!(make(400, 63, 100), ConfigurationError::CanvasHeight);
    assert_eq!(make(128, 1024, 100), ConfigurationError::AspectRatioOverflow);
    assert_eq!(make(400, 240, 0), ConfigurationError::FieldOfView);
}

#[test]
fn width_alone_changes_aspect_ratio_not_table() {
    let a = params(400, 240);
    let b = params(320, 240);
    assert_ne!(a.aspect_ratio_for_wall_height(), b.aspect_ratio_for_wall_height());
    assert_eq!(b.aspect_ratio_for_wall_height(), 180 << 21);
    for s in (0..0x10000u32).step_by(97) {
        let angle = Angle::from_steps(s as u16);
        assert_eq!(a.trigonometry().sine(angle), b.trigonometry().sine(angle));
    }
}

#[test]
fn coordinates_address_cells() {
    let c = WorldCoordinates::from_cell_centre(2, 3);
    assert_eq!((c.x(), c.y()), (0x280, 0x380));
    assert_eq!((c.cell_x_int(), c.cell_y_int()), (2, 3));
    assert_eq!((c.cell_x_floor(), c.cell_x_ceil(), c.cell_x_frac()), (0x200, 0x300, 0x80));
    let edge = WorldCoordinates::from_cell_top_left(4, 255);
    assert_eq!(edge.cell_x_ceil(), 0x400);
    assert_eq!(WorldCoordinates::new(0xff80, 0).cell_x_ceil(), 0xffff);
}

#[test]
fn camera_vectors_follow_heading() {
    let p = params(400, 240);
    let mut camera = Camera::new(Object::new(WorldCoordinates::from_cell_centre(2, 2), Angle::from_raw(FACING_SOUTH)), &p);
    let d = camera.direction_vector();
    assert!(d.y > 32000 && d.x.abs() < 1000);
    let n = camera.projection_plane_vector();
    assert!(n.x.abs() > 15000 && n.y.abs() < 1000);
    assert!(camera.is_facing_southwards());
    assert!(!camera.is_facing_northwards());
    camera.turn(Angle::from_steps(0x4000), &p);
    assert_eq!(camera.direction().steps(), 0);
    assert!(camera.is_facing_eastwards());
    assert!(camera.direction_vector().x < -32000);
}

#[test]
fn camera_moves_along_heading_and_clamps() {
    let p = params(400, 240);
    let mut camera = Camera::new(Object::new(WorldCoordinates::from_cell_centre(2, 2), Angle::from_raw(FACING_SOUTH)), &p);
    let before = camera.position();
    camera.move_relative(0x100);
    let after = camera.position();
    assert!(after.y() > before.y() + 0xf0 && after.y() <= before.y() + 0x100);
    assert!((after.x() as i32 - before.x() as i32).abs() <= 8);
    camera.set_position(WorldCoordinates::new(0x80, 0xff80));
    camera.move_relative(0x7fff);
    assert_eq!(camera.position().y(), 0xffff);
}

#[test]
fn world_probes_grid_and_bounds() {
    let w = World1::new();
    assert_eq!(w.probe_cell(&CellProbe::new(WorldCoordinates::from_cell_centre(1, 1))), CellProbeResult::Empty);
    match w.probe_cell(&CellProbe::new(WorldCoordinates::from_cell_centre(8, 0))) {
        CellProbeResult::Opaque(t) => assert_eq!(t.world_cell_id(), 2),
        other => panic!("{:?}", other),
    }
    match w.probe_cell(&CellProbe::new(WorldCoordinates::from_cell_centre(20, 3))) {
        CellProbeResult::Opaque(t) => assert_eq!(t.world_cell_id(), 0),
        other => panic!("{:?}", other),
    }
    assert_eq!(w.spawn_at(), WorldCoordinates::from_cell_centre(2, 2));
    assert_eq!(w.spawn_angle(), Angle::from_raw(FACING_SOUTH));
    assert!(World1::from_cells(vec![0; 10], 4, 4, w.spawn_at(), w.spawn_angle()).is_none());
}

fn reference_distance(world: &[u8], ox: f64, oy: f64, dx: f64, dy: f64) -> (f64, u8) {
    let (mut cx, mut cy) = (ox.floor() as i32, oy.floor() as i32);
    let delta_x = if dx == 0.0 { f64::INFINITY } else { 1.0 / dx.abs() };
    let delta_y = if dy == 0.0 { f64::INFINITY } else { 1.0 / dy.abs() };
    let (step_x, mut side_x) = if dx >= 0.0 { (1, (cx as f64 + 1.0 - ox) * delta_x) } else { (-1, (ox - cx as f64) * delta_x) };
    let (step_y, mut side_y) = if dy >= 0.0 { (1, (cy as f64 + 1.0 - oy) * delta_y) } else { (-1, (oy - cy as f64) * delta_y) };
    loop {
        let distance;
        if side_x < side_y {
            distance = side_x;
            side_x += delta_x;
            cx += step_x;
        } else {
            distance = side_y;
            side_y += delta_y;
            cy += step_y;
        }
        let id = world[(cy * 16 + cx) as usize];
        if id != 0 {
            return (distance, id);
        }
    }
}

#[test]
fn ray_walk_matches_reference_walk() {
    let p = params(400, 240);
    let world = bordered_world();
    let mut cells = vec![0u8; 256];
    for i in 0..16 {
        cells[i] = 1;
        cells[15 * 16 + i] = 2;
        cells[i * 16] = 1;
        cells[i * 16 + 15] = 1;
    }
    let camera = Camera::new(Object::new(WorldCoordinates::from_cell_centre(2, 2), Angle::from_steps(0xd000)), &p);
    let mut context = RaycastingContext::default();
    context.on_frame_start(&camera, &p).unwrap();
    loop {
        context.cast_ray(&world, &p).unwrap();
        let direction = context.ray_direction();
        let (dx, dy) = (direction.x as f64 / 16777216.0, direction.y as f64 / 16777216.0);
        let (expected, id) = reference_distance(&cells, 2.5, 2.5, dx, dy);
        let distance = context.distance_to_wall() as f64 / 16777216.0;
        assert!((distance - expected).abs() < 0.05, "column {}: {} vs {}", context.canvas_column_x(), distance, expected);
        assert_eq!(context.cell_tag().unwrap().world_cell_id(), id);
        if !context.next_column(&p).unwrap() {
            break;
        }
    }
    assert_eq!(context.canvas_column_x(), 400);
}

#[test]
fn centre_rays_south_and_east_hit_different_walls() {
    let p = params(400, 240);
    let world = bordered_world();
    let south = cast_centre(&world, FACING_SOUTH, &p);
    let east = cast_centre(&world, FACING_EAST, &p);
    let south_hit = south.cell_intersection(&p).unwrap();
    let east_hit = east.cell_intersection(&p).unwrap();
    assert_eq!(south_hit.cell_tag().world_cell_id(), 2);
    assert_eq!(east_hit.cell_tag().world_cell_id(), 1);
    assert_ne!(south.distance_to_wall(), east.distance_to_wall());
    let south_cells = south.distance_to_wall() as f64 / 16777216.0;
    assert!((south_cells - 12.5).abs() < 0.05);
    assert!(south_hit.projected_wall_height_int() < east_hit.projected_wall_height_int());
    assert_eq!(south_hit.projected_wall_height_int() % 2, 0);
}

#[test]
fn ray_without_wall_in_budget_records_nothing() {
    let table = table(SineTableSpan::QuarterTurn, 6);
    let p = RaycastingParameters::new(400, 240, plane_y(62.5), 3, table).unwrap();
    let world = bordered_world();
    let camera = Camera::new(Object::new(WorldCoordinates::from_cell_centre(2, 2), Angle::from_raw(FACING_SOUTH)), &p);
    let mut context = RaycastingContext::default();
    context.on_frame_start(&camera, &p).unwrap();
    context.cast_ray(&world, &p).unwrap();
    assert!(context.cell_tag().is_none());
    assert!(context.cell_intersection(&p).is_none());
    assert_eq!(context.distance_to_wall(), NO_WALL_DISTANCE);
}

#[test]
fn wall_height_falls_off_with_distance() {
    let aspect = 144u32 << 21;
    assert_eq!(wall_height_for(aspect, 0), u32::MAX);
    assert_eq!(wall_height_for(aspect, 7), u32::MAX);
    assert_eq!(wall_height_for(aspect, 1 << 24), 144 << 21);
    assert_eq!(wall_height_for(aspect, 2 << 24), 72 << 21);
    let mut last = u32::MAX;
    for d in (0..u32::MAX).step_by(0x00ff_fff1) {
        let h = wall_height_for(aspect, d);
        assert!(h <= last);
        last = h;
    }
}

#[test]
fn wall_offset_is_fraction_along_wall_face() {
    let p = params(400, 240);
    let world = bordered_world();
    let south = cast_centre(&world, FACING_SOUTH, &p);
    let hit = south.cell_intersection(&p).unwrap();
    assert!(!hit.is_horizontal_intersection());
    let offset = hit.cell_offset() as f64 / 65536.0;
    let dx = south.ray_direction().x as f64 / 16777216.0;
    let distance = south.distance_to_wall() as f64 / 16777216.0;
    let expected = (2.5 + distance * dx).fract();
    assert!((offset - expected).abs() < 0.002, "{} vs {}", offset, expected);
    assert!(offset != 0.5);
}

#[test]
fn moving_before_the_grid_clamps_to_zero() {
    let p = params(400, 240);
    let mut camera = Camera::new(Object::new(WorldCoordinates::new(0, 0x280), Angle::from_raw(FACING_EAST)), &p);
    assert!(camera.direction_vector().x < -32000);
    camera.move_relative(0x100);
    assert_eq!(camera.position().x(), 0);
    let mut back = Camera::new(Object::new(WorldCoordinates::new(0x40, 0x280), Angle::from_raw(FACING_EAST)), &p);
    back.move_relative(0);
    assert_eq!(back.position().x(), 0x40);
}

#[test]
fn next_column_counts_past_the_last_column() {
    let p = params(400, 240);
    let camera = Camera::new(Object::new(WorldCoordinates::from_cell_centre(2, 2), Angle::from_raw(FACING_SOUTH)), &p);
    let mut context = RaycastingContext::default();
    context.on_frame_start(&camera, &p).unwrap();
    let mut trues = 0;
    while context.next_column(&p).unwrap() {
        trues += 1;
    }
    assert_eq!(trues, 399);
    assert_eq!(context.canvas_column_x(), 400);
    assert!(!context.next_column(&p).unwrap());
    assert_eq!(context.canvas_column_x(), 401);
}

#[test]
fn frame_start_forgets_the_last_wall() {
    let p = params(400, 240);
    let world = bordered_world();
    let mut context = cast_centre(&world, FACING_SOUTH, &p);
    assert!(context.cell_tag().is_some());
    let camera = Camera::new(Object::new(WorldCoordinates::from_cell_centre(2, 2), Angle::from_raw(FACING_SOUTH)), &p);
    context.on_frame_start(&camera, &p).unwrap();
    assert!(context.cell_tag().is_none());
    assert_eq!(context.distance_to_wall(), NO_WALL_DISTANCE);
    assert!(context.cell_intersection(&p).is_none());
}

#[test]
fn demonstration_world_layout() {
    let w = World1::new();
    let probe = |c: WorldCoordinates| w.probe_cell(&CellProbe::new(c));
    assert_eq!(probe(WorldCoordinates::from_cell_centre(2, 2)), CellProbeResult::Empty);
    assert!(matches!(probe(WorldCoordinates::from_cell_centre(2, 6)), CellProbeResult::Opaque(t) if t.world_cell_id() == 1));
    assert!(matches!(probe(WorldCoordinates::from_cell_top_left(8, 0)), CellProbeResult::Opaque(t) if t.world_cell_id() == 2));
    assert!(matches!(probe(WorldCoordinates::from_cell_centre(16, 3)), CellProbeResult::Opaque(t) if t.world_cell_id() == 0));
}
