//! Column compositing: sky, wall and ground spans, and the renderers that
//! fill them.

use vstd::prelude::*;
use vstd::arithmetic::div_mod::lemma_fundamental_div_mod_converse;

use crate::canvas::{span_writes, Canvas, Colour};
use crate::context::{intersection_offset, RayCellIntersection};
use crate::coordinates::Vector2d;
use crate::fixed_point::{sat_u32, u16f16_saturating_div};
use crate::result::Error;
use crate::texture::Texture;

verus! {

/// The sky, wall and ground spans of one column.
#[derive(Clone, Copy, Debug, PartialEq, Eq, Structural)]
pub struct ColumnLayout {
    /// Wall height clipped to the canvas.
    pub wall_clipped: u16,
    /// Rows above the wall, and rows below it.
    pub sky: u16,
    pub ground: u16,
    /// Rows of the unclipped wall hidden above the top of the canvas.
    pub wall_clip_offset: u16,
    /// Offset of the ground span in a half-canvas-high texture.
    pub ground_clip_offset: u16,
}

/// The layout of a column whose wall is `wall` pixels high on a canvas
/// `height` pixels high: the wall clipped to the canvas and centred, the sky
/// above it and the ground below.
pub open spec fn column_layout(wall: int, height: int) -> ColumnLayout {
    let clipped = if wall < height { wall } else { height };
    let top = (height - clipped) / 2;
    let bottom = height - top;
    ColumnLayout {
        wall_clipped: clipped as u16,
        sky: top as u16,
        ground: (height - bottom) as u16,
        wall_clip_offset: ((wall - clipped) / 2) as u16,
        ground_clip_offset: (bottom - height / 2) as u16,
    }
}

/// Lays out a column: spans whose lengths sum to the canvas height when the
/// wall height and the canvas height are both even.
pub fn column_spans(wall: u16, height: u16) -> (r: ColumnLayout)
    ensures
        r == column_layout(wall as int, height as int),
        r.wall_clipped <= height,
        wall % 2 == 0 && height % 2 == 0 ==> r.sky + r.wall_clipped + r.ground == height,
        r.sky == r.ground,
{
    let clipped = if wall < height { wall } else { height };
    let top = (height - clipped) / 2;
    let bottom = height - top;
    ColumnLayout {
        wall_clipped: clipped,
        sky: top,
        ground: height - bottom,
        wall_clip_offset: (wall - clipped) / 2,
        ground_clip_offset: bottom - height / 2,
    }
}

/// One screen column being drawn, span by span, top to bottom.
#[derive(Debug)]
pub struct RenderingColumn {
    pub screen_x: u16,
    pub screen_y: u16,
    pub clipped_span_length: u16,
    pub span_clip_offset: u16,
    pub unclipped_span_length: u16,
    pub screen_y_end: u16,
    pub raycasting: Option<RayCellIntersection>,
}

impl RenderingColumn {
    pub fn new(screen_x: u16, screen_y: u16, raycasting: Option<RayCellIntersection>) -> (r: RenderingColumn)
        ensures
            r.screen_x == screen_x,
            r.screen_y == screen_y,
            r.screen_y_end == screen_y,
            r.clipped_span_length == 0,
            r.span_clip_offset == 0,
            r.unclipped_span_length == 0,
            r.raycasting == raycasting,
    {
        RenderingColumn {
            screen_x,
            screen_y,
            clipped_span_length: 0,
            span_clip_offset: 0,
            unclipped_span_length: 0,
            screen_y_end: screen_y,
            raycasting,
        }
    }

    /// Appends the next span below the previous one: `clipped_span_length`
    /// visible rows of a span `unclipped_span_length` rows long whose first
    /// `span_clip_offset` rows are cut off.
    pub fn next_span(&mut self, clipped_span_length: u16, span_clip_offset: u16, unclipped_span_length: u16)
        requires
            old(self).screen_y_end + clipped_span_length <= u16::MAX,
        ensures
            final(self).clipped_span_length == clipped_span_length,
            final(self).span_clip_offset == span_clip_offset,
            final(self).unclipped_span_length == unclipped_span_length,
            final(self).screen_y_end == old(self).screen_y_end + clipped_span_length,
            final(self).screen_x == old(self).screen_x,
            final(self).screen_y == old(self).screen_y,
            final(self).raycasting == old(self).raycasting,
    {
        self.clipped_span_length = clipped_span_length;
        self.span_clip_offset = span_clip_offset;
        self.unclipped_span_length = unclipped_span_length;
        self.screen_y_end = self.screen_y_end + clipped_span_length;
    }

    pub fn raycasting(&self) -> (r: &Option<RayCellIntersection>)
        ensures
            *r == self.raycasting,
    {
        &self.raycasting
    }
}

/// The column once `n` more rows of its span are drawn.
pub open spec fn after_span(c: RenderingColumn, n: int) -> RenderingColumn {
    RenderingColumn { screen_y: (c.screen_y + n) as u16, ..c }
}

/// The column with its next span appended, as `next_span` leaves it.
pub open spec fn with_next_span(c: RenderingColumn, clipped: int, offset: int, unclipped: int) -> RenderingColumn {
    RenderingColumn {
        clipped_span_length: clipped as u16,
        span_clip_offset: offset as u16,
        unclipped_span_length: unclipped as u16,
        screen_y_end: (c.screen_y_end + clipped) as u16,
        ..c
    }
}

/// A renderer of one span of a column, drawing from the column's current row
/// to the end of its span.
pub trait ColumnRendering {
    spec fn can_render(&self) -> bool;

    /// What drawing the rest of the span of `c` gives: the colour of each row
    /// left (`None` where nothing is written), or the error raised before any
    /// row is drawn.
    spec fn span_outcome(&self, c: RenderingColumn) -> Result<Seq<Option<Colour>>, Error>;

    /// Draws the rows of `span_outcome` in order.  On the sink's first
    /// refusal it stops, having written a prefix of them; on success the
    /// column's current row has moved past them.
    fn render_column_onto<C: Canvas>(&self, column: &mut RenderingColumn, canvas: &mut C) -> (r: Result<(), Error>)
        requires
            self.can_render(),
        ensures
            self.span_outcome(*old(column)) matches Err(e) ==> r == Err::<(), Error>(e) && *final(column) == *old(column)
                && final(canvas).writes() == old(canvas).writes() && final(canvas).refusals() == old(canvas).refusals(),
            self.span_outcome(*old(column)) matches Ok(s) ==> {
                &&& s.len() == rows_left(*old(column)) || s.len() == 0
                &&& r is Ok ==> final(canvas).writes() == old(canvas).writes() + span_writes(
                    old(column).screen_x,
                    old(column).screen_y as int,
                    s,
                ) && *final(column) == after_span(*old(column), s.len() as int)
                    && final(canvas).refusals() == old(canvas).refusals()
                &&& r is Err ==> final(canvas).refusals() == old(canvas).refusals() + 1
                    && exists|k: int| 0 <= k <= s.len() && final(canvas).writes() == old(canvas).writes() + span_writes(
                    old(column).screen_x,
                    old(column).screen_y as int,
                    s.take(k),
                )
                &&& s.len() == 0 ==> r is Ok
            },
            final(column).screen_x == old(column).screen_x,
            final(column).screen_y_end == old(column).screen_y_end,
    ;
}

/// Writes the rows `texels` from the column's current row down.
fn write_rows<C: Canvas>(column: &mut RenderingColumn, texels: &Vec<Option<Colour>>, canvas: &mut C) -> (r: Result<(), Error>)
    requires
        texels@.len() == rows_left(*old(column)) || texels@.len() == 0,
    ensures
        r is Ok ==> final(canvas).writes() == old(canvas).writes() + span_writes(
            old(column).screen_x,
            old(column).screen_y as int,
            texels@,
        ) && *final(column) == after_span(*old(column), texels@.len() as int)
            && final(canvas).refusals() == old(canvas).refusals(),
        r is Err ==> final(canvas).refusals() == old(canvas).refusals() + 1 && exists|k: int| 0 <= k <= texels@.len() && final(canvas).writes() == old(canvas).writes() + span_writes(
            old(column).screen_x,
            old(column).screen_y as int,
            texels@.take(k),
        ),
        texels@.len() == 0 ==> r is Ok,
        final(column).screen_x == old(column).screen_x,
        final(column).screen_y_end == old(column).screen_y_end,
{
    let x = column.screen_x;
    let y0 = column.screen_y;
    let mut k: usize = 0;
    proof {
        assert(texels@.take(0) =~= Seq::<Option<Colour>>::empty());
        assert(old(canvas).writes() + span_writes(x, y0 as int, texels@.take(0)) =~= old(canvas).writes());
    }
    while k < texels.len()
        invariant
            k <= texels@.len(),
            texels@.len() == rows_left(*old(column)) || texels@.len() == 0,
            x == old(column).screen_x,
            y0 == old(column).screen_y,
            *column == after_span(*old(column), k as int),
            canvas.writes() == old(canvas).writes() + span_writes(x, y0 as int, texels@.take(k as int)),
            canvas.refusals() == old(canvas).refusals(),
        decreases texels@.len() - k,
    {
        let ghost before = canvas.writes();
        match texels[k] {
            Some(texel) => {
                match canvas.set_pixel(column.screen_x, column.screen_y, texel) {
                    Ok(()) => {},
                    Err(e) => {
                        return Err(e);
                    },
                }
            },
            None => {},
        }
        proof {
            let t1 = texels@.take(k as int + 1);
            assert(t1.drop_last() =~= texels@.take(k as int));
            assert(t1.last() == texels@[k as int]);
            match texels@[k as int] {
                Some(c) => {
                    assert(span_writes(x, y0 as int, t1) == span_writes(x, y0 as int, texels@.take(k as int)).push(
                        (x, (y0 + k) as u16, c)));
                    assert(canvas.writes() =~= old(canvas).writes() + span_writes(x, y0 as int, t1));
                },
                None => {
                    assert(span_writes(x, y0 as int, t1) == span_writes(x, y0 as int, texels@.take(k as int)));
                },
            }
        }
        column.screen_y = column.screen_y + 1;
        k = k + 1;
    }
    proof {
        assert(texels@.take(k as int) =~= texels@);
    }
    Ok(())
}

/// Fills a span with one colour.
#[derive(Clone, Copy, Debug)]
pub struct SolidColourColumnRenderer {
    pub colour: Colour,
}

impl SolidColourColumnRenderer {
    pub fn new(colour: Colour) -> (r: SolidColourColumnRenderer)
        ensures
            r.colour == colour,
    {
        SolidColourColumnRenderer { colour }
    }
}

/// Every row left in the span of `c`, in `colour`.
pub open spec fn solid_span(colour: Colour, c: RenderingColumn) -> Seq<Option<Colour>> {
    Seq::new(rows_left(c) as nat, |k: int| Some(colour))
}

impl ColumnRendering for SolidColourColumnRenderer {
    open spec fn can_render(&self) -> bool {
        true
    }

    open spec fn span_outcome(&self, c: RenderingColumn) -> Result<Seq<Option<Colour>>, Error> {
        Ok(solid_span(self.colour, c))
    }

    fn render_column_onto<C: Canvas>(&self, column: &mut RenderingColumn, canvas: &mut C) -> (r: Result<(), Error>) {
        let rows: u16 = if column.screen_y < column.screen_y_end {
            column.screen_y_end - column.screen_y
        } else {
            0
        };
        let mut colours: Vec<Option<Colour>> = Vec::new();
        let mut k: u16 = 0;
        while k < rows
            invariant
                k <= rows,
                rows == rows_left(*column),
                colours@ =~= solid_span(self.colour, *column).take(k as int),
            decreases rows - k,
        {
            colours.push(Some(self.colour));
            k = k + 1;
        }
        proof {
            assert(colours@ =~= solid_span(self.colour, *column));
        }
        write_rows(column, &colours, canvas)
    }
}

/// The first vertical texel coordinate of a span whose first `offset` rows
/// are clipped, as raw `U16F16` (`offset / length`).
pub open spec fn texel_start(offset: int, length: int) -> int {
    (offset * 0x1_0000) / length
}

/// The vertical texel step per row of a span `length` rows long, as raw
/// `U16F16` (`1 / length`).
pub open spec fn texel_step(length: int) -> int {
    0x1_0000int / length
}

proof fn lemma_cancel(a: int, b: int)
    requires
        a >= 0,
        b > 0,
    ensures
        (a * 0x1_0000 * 0x1_0000) / (b * 0x1_0000) == (a * 0x1_0000) / b,
{
    let n = a * 0x1_0000;
    let q = n / b;
    let r = n % b;
    assert(n == q * b + r && 0 <= r < b) by (nonlinear_arith)
        requires q == n / b, r == n % b, b > 0;
    assert(n * 0x1_0000 == q * (b * 0x1_0000) + r * 0x1_0000) by (nonlinear_arith)
        requires n == q * b + r;
    assert(0 <= r * 0x1_0000 < b * 0x1_0000) by (nonlinear_arith)
        requires 0 <= r < b;
    lemma_fundamental_div_mod_converse(n * 0x1_0000, b * 0x1_0000, q, r * 0x1_0000);
}

/// The vertical texel coordinate of the first row and the step per row, as
/// raw `U0F16`; an error when either is 1 or more.
pub fn texel_rows(offset: u16, length: u16) -> (r: Result<(u16, u16), Error>)
    requires
        length != 0,
    ensures
        texel_start(offset as int, length as int) >= 0x1_0000 ==> r == Err::<(u16, u16), Error>(Error::TextureMappingOverflowY),
        texel_start(offset as int, length as int) < 0x1_0000 && texel_step(length as int) >= 0x1_0000
            ==> r == Err::<(u16, u16), Error>(Error::TextureMappingOverflowDeltaY),
        r matches Ok(p) ==> p.0 == texel_start(offset as int, length as int) && p.1 == texel_step(length as int),
        r is Ok <==> texel_start(offset as int, length as int) < 0x1_0000 && texel_step(length as int) < 0x1_0000,
{
    proof {
        lemma_cancel(offset as int, length as int);
        lemma_cancel(1, length as int);
        assert((offset as int * 0x1_0000) / length as int <= offset as int * 0x1_0000) by (nonlinear_arith)
            requires length >= 1, offset >= 0;
    }
    let start = u16f16_saturating_div(offset as u32 * 0x1_0000, length as u32 * 0x1_0000);
    if start >= 0x1_0000 {
        return Err(Error::TextureMappingOverflowY);
    }
    let step = u16f16_saturating_div(0x1_0000, length as u32 * 0x1_0000);
    if step >= 0x1_0000 {
        return Err(Error::TextureMappingOverflowDeltaY);
    }
    Ok((start as u16, step as u16))
}

/// The vertical texel coordinate (raw `U0F16`) of the `k`th row drawn, from
/// the first row's coordinate `start` and the per-row `step`, wrapping.
pub open spec fn texel_row(start: int, step: int, k: int) -> int {
    (start + k * step) % 0x1_0000
}

/// Rows left to draw in a column's current span.
pub open spec fn rows_left(column: RenderingColumn) -> int {
    if column.screen_y < column.screen_y_end {
        column.screen_y_end - column.screen_y
    } else {
        0
    }
}

/// The two texture errors in plain terms: the first texel coordinate is 1 or
/// more exactly when the clip offset reaches the span length, and the step is
/// exactly when the span is one row long.
pub proof fn lemma_texel_errors(offset: int, length: int)
    requires
        0 <= offset,
        0 < length,
    ensures
        texel_start(offset, length) >= 0x1_0000 <==> offset >= length,
        texel_step(length) >= 0x1_0000 <==> length == 1,
{
    assert(texel_start(offset, length) >= 0x1_0000 <==> offset >= length) by (nonlinear_arith)
        requires 0 <= offset, 0 < length, texel_start(offset, length) == (offset * 0x1_0000) / length;
    assert(texel_step(length) >= 0x1_0000 <==> length == 1) by (nonlinear_arith)
        requires 0 < length, texel_step(length) == 0x1_0000int / length;
}

/// What a texture-mapped renderer draws for the rest of the span of `c`:
/// nothing for an empty span or a column without a wall; an error when the
/// first vertical texel coordinate or its step is 1 or more; else, for row
/// `k`, the texel at the wall-face offset and `texel_row(start, step, k)`.
pub open spec fn texture_span<T: Texture>(t: &T, c: RenderingColumn) -> Result<Seq<Option<Colour>>, Error> {
    let start = texel_start(c.span_clip_offset as int, c.unclipped_span_length as int);
    let step = texel_step(c.unclipped_span_length as int);
    match c.raycasting {
        None => Ok(Seq::empty()),
        Some(i) => if c.unclipped_span_length == 0 {
            Ok(Seq::empty())
        } else if start >= 0x1_0000 {
            Err(Error::TextureMappingOverflowY)
        } else if step >= 0x1_0000 {
            Err(Error::TextureMappingOverflowDeltaY)
        } else {
            Ok(Seq::new(
                rows_left(c) as nat,
                |k: int| t.texel(intersection_offset(i) as u16, texel_row(start, step, k) as u16),
            ))
        },
    }
}

/// Maps a texture onto a span.
#[derive(Debug)]
pub struct TextureMappedColumnRenderer<'c, T: Texture> {
    pub texture: &'c T,
}

impl<'c, T: Texture> TextureMappedColumnRenderer<'c, T> {
    pub fn new(texture: &'c T) -> (r: TextureMappedColumnRenderer<'c, T>)
        ensures
            r.texture == texture,
    {
        TextureMappedColumnRenderer { texture }
    }

    /// The texels of the rows left in the column's span, top to bottom (see
    /// `texture_span`).
    pub fn span_texels(&self, column: &RenderingColumn) -> (r: Result<Vec<Option<Colour>>, Error>)
        requires
            self.texture.wf(),
        ensures
            r matches Ok(v) ==> texture_span(self.texture, *column) == Ok::<Seq<Option<Colour>>, Error>(v@),
            r matches Err(e) ==> texture_span(self.texture, *column) == Err::<Seq<Option<Colour>>, Error>(e),
    {
        let mut texels: Vec<Option<Colour>> = Vec::new();
        if column.unclipped_span_length == 0 {
            proof {
                assert(texels@ =~= Seq::<Option<Colour>>::empty());
            }
            return Ok(texels);
        }
        let offset = match &column.raycasting {
            Some(i) => i.cell_offset(),
            None => {
                proof {
                    assert(texels@ =~= Seq::<Option<Colour>>::empty());
                }
                return Ok(texels);
            },
        };
        let (start, step) = match texel_rows(column.span_clip_offset, column.unclipped_span_length) {
            Ok(p) => p,
            Err(e) => {
                return Err(e);
            },
        };
        let rows: u16 = if column.screen_y < column.screen_y_end {
            column.screen_y_end - column.screen_y
        } else {
            0
        };
        let mut v: u16 = start;
        let mut k: u16 = 0;
        while k < rows
            invariant
                self.texture.wf(),
                k <= rows,
                rows == rows_left(*column),
                texels@.len() == k,
                v as int == texel_row(start as int, step as int, k as int),
                forall|j: int| 0 <= j < k ==> texels@[j] == self.texture.texel(
                    offset,
                    texel_row(start as int, step as int, j) as u16,
                ),
            decreases rows - k,
        {
            texels.push(self.texture.get_texel_at(Vector2d::new(offset, v)));
            proof {
                assert(texel_row(start as int, step as int, k as int + 1)
                    == (v as int + step as int) % 0x1_0000) by (nonlinear_arith)
                    requires v as int == (start as int + k as int * step as int) % 0x1_0000;
            }
            v = v.wrapping_add(step);
            k = k + 1;
        }
        proof {
            let i = column.raycasting->0;
            assert(texels@ =~= Seq::new(
                rows_left(*column) as nat,
                |k: int| self.texture.texel(intersection_offset(i) as u16, texel_row(start as int, step as int, k) as u16),
            ));
        }
        Ok(texels)
    }
}

impl<'c, T: Texture> ColumnRendering for TextureMappedColumnRenderer<'c, T> {
    open spec fn can_render(&self) -> bool {
        self.texture.wf()
    }

    open spec fn span_outcome(&self, c: RenderingColumn) -> Result<Seq<Option<Colour>>, Error> {
        texture_span(self.texture, c)
    }

    fn render_column_onto<C: Canvas>(&self, column: &mut RenderingColumn, canvas: &mut C) -> (r: Result<(), Error>) {
        let texels = match self.span_texels(column) {
            Ok(t) => t,
            Err(e) => {
                return Err(e);
            },
        };
        write_rows(column, &texels, canvas)
    }
}

} // verus!
