//! The palette, the wall textures, and how a world picks a renderer for each
//! span of a column.

use vstd::prelude::*;

use crate::canvas::{Canvas, Colour};
use crate::rendering::{
    solid_span, texture_span, ColumnRendering, RenderingColumn, SolidColourColumnRenderer, TextureMappedColumnRenderer,
};
use crate::result::Error;
use crate::texture::{StretchedStaticTexture, Texture};
use crate::world::CellTag;

verus! {

/// Side of the wall textures, in texels.
pub const WALL_TEXTURE_SIDE: u8 = 64;

/// A colour value that no palette index equals: wall textures have no
/// transparent texels.
pub const NO_TRANSPARENT_COLOUR: u16 = 0xff00;

/// Red, green and blue for each of the 256 palette indices.
#[derive(Debug)]
pub struct Palette {
    rgb: Vec<u8>,
}

impl Palette {
    pub const BLACK: u8 = 0;
    pub const TRANSPARENT: u8 = 0;
    pub const GRASS_LIGHTEST: u8 = 48;
    pub const SKY_LIGHTEST: u8 = 144;

    pub closed spec fn rgb(&self) -> Seq<u8> {
        self.rgb@
    }

    /// A palette of 256 red, green, blue triples; `None` for any other size.
    pub fn new(rgb: Vec<u8>) -> (r: Option<Palette>)
        ensures
            r is Some <==> rgb@.len() == 768,
            r matches Some(p) ==> p.rgb() == rgb@,
    {
        if rgb.len() != 768 {
            return None;
        }
        Some(Palette { rgb })
    }

    /// The red, green and blue of a colour.
    pub fn rgb_for(&self, colour: Colour) -> (r: (u8, u8, u8))
        requires
            self.rgb().len() == 768,
        ensures
            r == (
                self.rgb()[colour.index * 3],
                self.rgb()[colour.index * 3 + 1],
                self.rgb()[colour.index * 3 + 2],
            ),
    {
        let index = colour.as_index() as usize * 3;
        (self.rgb[index], self.rgb[index + 1], self.rgb[index + 2])
    }
}

/// The wall textures of the demonstration world.
#[derive(Debug)]
pub struct Textures {
    pub brick1: StretchedStaticTexture,
    pub stone1: StretchedStaticTexture,
}

impl Textures {
    pub open spec fn wf(&self) -> bool {
        self.brick1.wf() && self.stone1.wf()
    }

    /// What the wall renderer for a cell draws on a column.
    pub open spec fn wall_outcome(&self, cell_tag: Option<CellTag>, c: RenderingColumn) -> Result<Seq<Option<Colour>>, Error> {
        if wall_kind(cell_tag) == 1 {
            texture_span(&self.brick1, c)
        } else if wall_kind(cell_tag) == 2 {
            texture_span(&self.stone1, c)
        } else {
            Ok(solid_span(Colour { index: Palette::BLACK }, c))
        }
    }

    /// The brick and stone textures, each 64 by 64 texels row by row; `None`
    /// when either has too few pixels.
    pub fn new(brick1: Vec<u8>, stone1: Vec<u8>) -> (r: Option<Textures>)
        ensures
            r is Some <==> brick1@.len() >= 64 * 64 && stone1@.len() >= 64 * 64,
            r matches Some(t) ==> t.wf(),
    {
        let brick1 = StretchedStaticTexture::new(brick1, WALL_TEXTURE_SIDE, WALL_TEXTURE_SIDE, NO_TRANSPARENT_COLOUR);
        let stone1 = StretchedStaticTexture::new(stone1, WALL_TEXTURE_SIDE, WALL_TEXTURE_SIDE, NO_TRANSPARENT_COLOUR);
        match (brick1, stone1) {
            (Some(brick1), Some(stone1)) => Some(Textures { brick1, stone1 }),
            _ => None,
        }
    }

    /// The wall renderer for a cell: brick for id 1, stone for id 2, black
    /// for anything else or no cell.
    pub fn new_renderer_for(&self, cell_tag: Option<CellTag>) -> (r: TextureRenderer<'_>)
        requires
            self.wf(),
        ensures
            r.wf(),
            r.kind() == wall_kind(cell_tag),
            forall|c: RenderingColumn| #[trigger] r.span_outcome(c) == self.wall_outcome(cell_tag, c),
    {
        let id: u8 = match cell_tag {
            Some(t) => t.world_cell_id(),
            None => 255,
        };
        if id == 1 {
            TextureRenderer::Brick1(TextureMappedColumnRenderer::new(&self.brick1))
        } else if id == 2 {
            TextureRenderer::Stone1(TextureMappedColumnRenderer::new(&self.stone1))
        } else {
            TextureRenderer::Unknown(SolidColourColumnRenderer::new(Colour::new(Palette::BLACK)))
        }
    }
}

/// Which renderer a wall of the given cell gets: 1 brick, 2 stone, 0 none.
pub open spec fn wall_kind(cell_tag: Option<CellTag>) -> int {
    match cell_tag {
        Some(t) => if t.id == 1 { 1 } else if t.id == 2 { 2 } else { 0 },
        None => 0,
    }
}

/// A renderer for one span of a column.
#[derive(Debug)]
pub enum TextureRenderer<'c> {
    Unknown(SolidColourColumnRenderer),
    Brick1(TextureMappedColumnRenderer<'c, StretchedStaticTexture>),
    Stone1(TextureMappedColumnRenderer<'c, StretchedStaticTexture>),
}

impl<'c> TextureRenderer<'c> {
    pub open spec fn wf(&self) -> bool {
        match self {
            TextureRenderer::Unknown(_) => true,
            TextureRenderer::Brick1(t) => t.texture.wf(),
            TextureRenderer::Stone1(t) => t.texture.wf(),
        }
    }

    pub open spec fn kind(&self) -> int {
        match self {
            TextureRenderer::Unknown(_) => 0,
            TextureRenderer::Brick1(_) => 1,
            TextureRenderer::Stone1(_) => 2,
        }
    }
}

impl<'c> ColumnRendering for TextureRenderer<'c> {
    open spec fn can_render(&self) -> bool {
        self.wf()
    }

    open spec fn span_outcome(&self, c: RenderingColumn) -> Result<Seq<Option<Colour>>, Error> {
        match self {
            TextureRenderer::Unknown(r) => r.span_outcome(c),
            TextureRenderer::Brick1(r) => r.span_outcome(c),
            TextureRenderer::Stone1(r) => r.span_outcome(c),
        }
    }

    fn render_column_onto<C: Canvas>(&self, column: &mut RenderingColumn, canvas: &mut C) -> (r: Result<(), Error>) {
        match self {
            TextureRenderer::Unknown(renderer) => renderer.render_column_onto(column, canvas),
            TextureRenderer::Brick1(renderer) => renderer.render_column_onto(column, canvas),
            TextureRenderer::Stone1(renderer) => renderer.render_column_onto(column, canvas),
        }
    }
}

} // verus!
