//! The world capability: what occupies each grid cell.

use vstd::prelude::*;

use crate::angle::Angle;
use crate::assets::{Palette, TextureRenderer, Textures};
use crate::canvas::Colour;
use crate::rendering::{lemma_texel_errors, solid_span, ColumnRendering, RenderingColumn, SolidColourColumnRenderer};
use crate::result::Error;
use crate::coordinates::{cell_of, WorldCoordinates};

verus! {

/// Opaque identifier of a cell's material, assigned by the world.
#[derive(Clone, Copy, Debug, PartialEq, Eq, Structural)]
pub struct CellTag {
    pub id: u8,
}

impl CellTag {
    pub fn from_world_cell_id(cell_id: u8) -> (r: CellTag)
        ensures
            r.id == cell_id,
    {
        CellTag { id: cell_id }
    }

    pub fn world_cell_id(&self) -> (r: u8)
        ensures
            r == self.id,
    {
        self.id
    }
}

/// What a ray finds in one cell.  Only `Opaque` ends a ray walk.
#[derive(Clone, Copy, Debug, PartialEq, Eq, Structural)]
pub enum CellProbeResult {
    Empty,
    Opaque(CellTag),
    Transparent(CellTag),
    PossiblyTransparent(CellTag),
}

/// A request to probe the cell holding a position.
#[derive(Clone, Copy, Debug)]
pub struct CellProbe {
    pub at: WorldCoordinates,
}

impl CellProbe {
    pub fn new(at: WorldCoordinates) -> (r: CellProbe)
        ensures
            r.at == at,
    {
        CellProbe { at }
    }

    pub fn at(&self) -> (r: WorldCoordinates)
        ensures
            r == self.at,
    {
        self.at
    }
}

/// A world: where the camera starts, and what each cell holds.
pub trait World {
    /// What probing the cell holding `at` finds.
    spec fn cell_at(&self, at: WorldCoordinates) -> CellProbeResult;

    /// Where and facing which way the camera starts.
    spec fn spawn_position(&self) -> WorldCoordinates;

    spec fn spawn_heading(&self) -> Angle;

    fn spawn_at(&self) -> (r: WorldCoordinates)
        ensures
            r == self.spawn_position(),
    ;

    fn spawn_angle(&self) -> (r: Angle)
        ensures
            r == self.spawn_heading(),
    ;

    fn probe_cell(&self, probe: &CellProbe) -> (r: CellProbeResult)
        ensures
            r == self.cell_at(probe.at),
    ;
}

/// A world's choice of renderer for the sky, wall and ground spans of a
/// column, given the cell its ray stopped at.
pub trait WorldRendering {
    spec fn rendering_wf(&self) -> bool;

    /// What the sky, wall and ground renderers chosen for `cell` draw on a
    /// column.
    spec fn sky_outcome(&self, cell: Option<CellTag>, c: RenderingColumn) -> Result<Seq<Option<Colour>>, Error>;

    spec fn wall_outcome(&self, cell: Option<CellTag>, c: RenderingColumn) -> Result<Seq<Option<Colour>>, Error>;

    spec fn ground_outcome(&self, cell: Option<CellTag>, c: RenderingColumn) -> Result<Seq<Option<Colour>>, Error>;

    fn sky_for_column(&self, cell: Option<CellTag>) -> (r: TextureRenderer<'_>)
        requires
            self.rendering_wf(),
        ensures
            r.wf(),
            forall|c: RenderingColumn| #[trigger] r.span_outcome(c) == self.sky_outcome(cell, c),
    ;

    fn wall_for_column(&self, cell: Option<CellTag>) -> (r: TextureRenderer<'_>)
        requires
            self.rendering_wf(),
        ensures
            r.wf(),
            forall|c: RenderingColumn| #[trigger] r.span_outcome(c) == self.wall_outcome(cell, c),
    ;

    fn ground_for_column(&self, cell: Option<CellTag>) -> (r: TextureRenderer<'_>)
        requires
            self.rendering_wf(),
        ensures
            r.wf(),
            forall|c: RenderingColumn| #[trigger] r.span_outcome(c) == self.ground_outcome(cell, c),
    ;
}

/// Colour of untextured walls.
pub const WALL_COLOUR: u8 = 76;

/// What a grid of `width` columns, stored row by row, holds at a position:
/// zero is empty, any other id an opaque cell, and everything off the grid an
/// opaque cell tagged zero.
pub open spec fn grid_cell(cells: Seq<u8>, width: int, height: int, at: WorldCoordinates) -> CellProbeResult {
    let x = cell_of(at.x as int);
    let y = cell_of(at.y as int);
    if x < width && y < height {
        let id = cells[y * width + x];
        if id == 0 {
            CellProbeResult::Empty
        } else {
            CellProbeResult::Opaque(CellTag { id })
        }
    } else {
        CellProbeResult::Opaque(CellTag { id: 0 })
    }
}

/// The cells of the demonstration world, row by row.
pub open spec fn demo_cells() -> Seq<u8> {
    seq![
        1, 1, 1, 1, 1, 1, 1, 1, 2, 2, 2, 2, 2, 2, 2, 2,
        1, 0, 0, 1, 0, 0, 0, 0, 0, 0, 0, 0, 0, 0, 0, 2,
        1, 0, 0, 1, 0, 0, 0, 0, 0, 0, 0, 0, 0, 0, 0, 2,
        1, 0, 0, 1, 0, 0, 0, 0, 0, 0, 0, 0, 0, 0, 0, 2,
        1, 0, 0, 1, 1, 1, 1, 0, 0, 0, 0, 0, 0, 0, 0, 2,
        1, 0, 0, 0, 0, 0, 1, 0, 0, 0, 0, 0, 0, 0, 0, 2,
        1, 0, 1, 0, 0, 0, 1, 0, 0, 0, 0, 0, 0, 0, 0, 2,
        1, 0, 0, 0, 0, 0, 1, 0, 0, 0, 0, 0, 0, 0, 0, 2,
        1, 0, 0, 0, 0, 0, 1, 0, 0, 0, 0, 0, 0, 0, 0, 2,
        1, 0, 1, 1, 1, 1, 1, 0, 0, 0, 1, 1, 0, 0, 0, 1,
        1, 0, 0, 0, 0, 0, 0, 0, 0, 0, 1, 1, 0, 0, 0, 1,
        1, 0, 0, 0, 0, 0, 0, 0, 0, 0, 0, 0, 0, 0, 0, 1,
        1, 0, 0, 0, 0, 0, 0, 0, 0, 0, 0, 0, 0, 0, 0, 1,
        1, 0, 0, 0, 0, 0, 0, 0, 0, 0, 0, 0, 0, 0, 0, 1,
        1, 0, 0, 0, 0, 0, 0, 0, 0, 0, 0, 0, 0, 0, 0, 1,
        1, 1, 1, 1, 1, 1, 1, 1, 1, 1, 1, 1, 1, 1, 1, 1,
    ]
}

/// A world laid out on an owned grid of cell ids.
#[derive(Debug)]
pub struct World1 {
    cells: Vec<u8>,
    width: u16,
    height: u16,
    spawn_at: WorldCoordinates,
    spawn_angle: Angle,
    textures: Option<Textures>,
}

impl World1 {
    pub closed spec fn textures_wf(&self) -> bool {
        self.textures matches Some(t) ==> t.wf()
    }

    pub closed spec fn has_textures(&self) -> bool {
        self.textures is Some
    }

    /// What the wall renderer for `cell` draws: textured by cell id once
    /// textures are given, else the plain wall colour.
    pub closed spec fn wall_span(&self, cell: Option<CellTag>, c: RenderingColumn) -> Result<Seq<Option<Colour>>, Error> {
        match self.textures {
            Some(t) => t.wall_outcome(cell, c),
            None => Ok(solid_span(Colour { index: WALL_COLOUR }, c)),
        }
    }

    /// Gives the walls textures in place of a plain colour.
    pub fn set_textures(&mut self, textures: Textures)
        requires
            textures.wf(),
        ensures
            final(self).textures_wf(),
            final(self).has_textures(),
            final(self).cells() == old(self).cells(),
            final(self).grid_width() == old(self).grid_width(),
            final(self).grid_height() == old(self).grid_height(),
            final(self).wf() == old(self).wf(),
    {
        self.textures = Some(textures);
    }

    pub closed spec fn cells(&self) -> Seq<u8> {
        self.cells@
    }

    pub closed spec fn grid_width(&self) -> int {
        self.width as int
    }

    pub closed spec fn grid_height(&self) -> int {
        self.height as int
    }


    pub closed spec fn wf(&self) -> bool {
        &&& self.width <= 256
        &&& self.height <= 256
        &&& self.cells@.len() == self.width * self.height
    }

    /// A world of `width` by `height` cells given row by row, or `None` when
    /// the sizes disagree or exceed 256.
    pub fn from_cells(
        cells: Vec<u8>,
        width: u16,
        height: u16,
        spawn_at: WorldCoordinates,
        spawn_angle: Angle,
    ) -> (r: Option<World1>)
        ensures
            r is Some <==> (width <= 256 && height <= 256 && cells@.len() == width * height),
            r matches Some(w) ==> {
                &&& w.wf()
                &&& w.cells() == cells@
                &&& w.grid_width() == width
                &&& w.grid_height() == height
                &&& w.spawn_position() == spawn_at
                &&& w.spawn_heading() == spawn_angle
                &&& w.textures_wf()
                &&& !w.has_textures()
            },
    {
        if width > 256 || height > 256 {
            return None;
        }
        assert(width as int * height as int <= 0x1_0000) by (nonlinear_arith)
            requires width <= 256, height <= 256;
        if cells.len() != width as usize * height as usize {
            return None;
        }
        Some(World1 { cells, width, height, spawn_at, spawn_angle, textures: None })
    }

    /// The sixteen-by-sixteen demonstration world: brick walls (id 1), a
    /// stone wall (id 2) along part of the border, and the camera in cell
    /// (2, 2) facing south.
    pub fn new() -> (r: World1)
        ensures
            r.wf(),
            r.grid_width() == 16,
            r.grid_height() == 16,
            r.cells() == demo_cells(),
            r.spawn_position() == (WorldCoordinates { x: 0x280, y: 0x280 }),
            r.spawn_heading()@ == 0xc000,
            r.textures_wf(),
            !r.has_textures(),
    {
        let cells: Vec<u8> = vec![
            1, 1, 1, 1, 1, 1, 1, 1, 2, 2, 2, 2, 2, 2, 2, 2,
            1, 0, 0, 1, 0, 0, 0, 0, 0, 0, 0, 0, 0, 0, 0, 2,
            1, 0, 0, 1, 0, 0, 0, 0, 0, 0, 0, 0, 0, 0, 0, 2,
            1, 0, 0, 1, 0, 0, 0, 0, 0, 0, 0, 0, 0, 0, 0, 2,
            1, 0, 0, 1, 1, 1, 1, 0, 0, 0, 0, 0, 0, 0, 0, 2,
            1, 0, 0, 0, 0, 0, 1, 0, 0, 0, 0, 0, 0, 0, 0, 2,
            1, 0, 1, 0, 0, 0, 1, 0, 0, 0, 0, 0, 0, 0, 0, 2,
            1, 0, 0, 0, 0, 0, 1, 0, 0, 0, 0, 0, 0, 0, 0, 2,
            1, 0, 0, 0, 0, 0, 1, 0, 0, 0, 0, 0, 0, 0, 0, 2,
            1, 0, 1, 1, 1, 1, 1, 0, 0, 0, 1, 1, 0, 0, 0, 1,
            1, 0, 0, 0, 0, 0, 0, 0, 0, 0, 1, 1, 0, 0, 0, 1,
            1, 0, 0, 0, 0, 0, 0, 0, 0, 0, 0, 0, 0, 0, 0, 1,
            1, 0, 0, 0, 0, 0, 0, 0, 0, 0, 0, 0, 0, 0, 0, 1,
            1, 0, 0, 0, 0, 0, 0, 0, 0, 0, 0, 0, 0, 0, 0, 1,
            1, 0, 0, 0, 0, 0, 0, 0, 0, 0, 0, 0, 0, 0, 0, 1,
            1, 1, 1, 1, 1, 1, 1, 1, 1, 1, 1, 1, 1, 1, 1, 1,
        ];
        assert(cells@ =~= demo_cells());
        World1 {
            cells,
            width: 16,
            height: 16,
            spawn_at: WorldCoordinates::from_cell_centre(2, 2),
            spawn_angle: Angle::from_steps(0xc000),
            textures: None,
        }
    }
}

impl World for World1 {
    closed spec fn spawn_position(&self) -> WorldCoordinates {
        self.spawn_at
    }

    closed spec fn spawn_heading(&self) -> Angle {
        self.spawn_angle
    }

    open spec fn cell_at(&self, at: WorldCoordinates) -> CellProbeResult {
        if self.wf() {
            grid_cell(self.cells(), self.grid_width(), self.grid_height(), at)
        } else {
            CellProbeResult::Opaque(CellTag { id: 0 })
        }
    }

    fn spawn_at(&self) -> (r: WorldCoordinates) {
        self.spawn_at
    }

    fn spawn_angle(&self) -> (r: Angle) {
        self.spawn_angle
    }

    fn probe_cell(&self, probe: &CellProbe) -> (r: CellProbeResult) {
        if self.width > 256 || self.height > 256 {
            return CellProbeResult::Opaque(CellTag { id: 0 });
        }
        assert(self.width as int * self.height as int <= 0x1_0000) by (nonlinear_arith)
            requires self.width <= 256, self.height <= 256;
        if self.cells.len() != self.width as usize * self.height as usize {
            return CellProbeResult::Opaque(CellTag { id: 0 });
        }
        let x = probe.at.cell_x_int() as usize;
        let y = probe.at.cell_y_int() as usize;
        let w = self.width as usize;
        if x < w && y < self.height as usize {
            assert(y * w + x < self.width * self.height) by (nonlinear_arith)
                requires x < w, y < self.height as int, w == self.width as int;
            let id = self.cells[y * w + x];
            if id == 0 {
                CellProbeResult::Empty
            } else {
                CellProbeResult::Opaque(CellTag { id })
            }
        } else {
            CellProbeResult::Opaque(CellTag { id: 0 })
        }
    }
}

impl WorldRendering for World1 {
    open spec fn rendering_wf(&self) -> bool {
        self.textures_wf()
    }

    open spec fn sky_outcome(&self, cell: Option<CellTag>, c: RenderingColumn) -> Result<Seq<Option<Colour>>, Error> {
        Ok(solid_span(Colour { index: Palette::SKY_LIGHTEST }, c))
    }

    open spec fn wall_outcome(&self, cell: Option<CellTag>, c: RenderingColumn) -> Result<Seq<Option<Colour>>, Error> {
        self.wall_span(cell, c)
    }

    open spec fn ground_outcome(&self, cell: Option<CellTag>, c: RenderingColumn) -> Result<Seq<Option<Colour>>, Error> {
        Ok(solid_span(Colour { index: Palette::GRASS_LIGHTEST }, c))
    }

    /// The sky is a plain colour.
    fn sky_for_column(&self, cell: Option<CellTag>) -> (r: TextureRenderer<'_>) {
        TextureRenderer::Unknown(SolidColourColumnRenderer::new(Colour::new(Palette::SKY_LIGHTEST)))
    }

    /// Walls are textured by cell id once textures are given, else plain.
    fn wall_for_column(&self, cell: Option<CellTag>) -> (r: TextureRenderer<'_>) {
        match &self.textures {
            Some(t) => t.new_renderer_for(cell),
            None => TextureRenderer::Unknown(SolidColourColumnRenderer::new(Colour::new(WALL_COLOUR))),
        }
    }

    /// The ground is a plain colour.
    fn ground_for_column(&self, cell: Option<CellTag>) -> (r: TextureRenderer<'_>) {
        TextureRenderer::Unknown(SolidColourColumnRenderer::new(Colour::new(Palette::GRASS_LIGHTEST)))
    }
}

/// The demonstration world's renderers raise no error on a span that is
/// empty, has no wall, or is at least two rows long with its clip offset
/// inside it.
pub proof fn lemma_world1_spans_succeed(w: &World1, cell: Option<CellTag>, c: RenderingColumn)
    requires
        w.rendering_wf(),
        c.unclipped_span_length == 0 || c.raycasting is None || (c.span_clip_offset < c.unclipped_span_length
            && c.unclipped_span_length >= 2),
    ensures
        w.sky_outcome(cell, c) is Ok,
        w.wall_outcome(cell, c) is Ok,
        w.ground_outcome(cell, c) is Ok,
{
    if c.unclipped_span_length != 0 {
        lemma_texel_errors(c.span_clip_offset as int, c.unclipped_span_length as int);
    }
}

} // verus!
