//! The configuration of a renderer and the constants derived from it.

use vstd::prelude::*;

use crate::trigonometry::{ConfigurationError, SineTable};

verus! {

/// The column normalising factor for a canvas `width` pixels wide: 2 / width
/// as raw `U0F16` bits (computed as `U2F30` and truncated).
pub open spec fn normalising_factor(width: int) -> int {
    (0x8000_0000int / width) / 0x4000
}

/// Whole part of the wall-height aspect ratio height² / width.
pub open spec fn aspect_ratio_whole(width: int, height: int) -> int {
    (height * height) / width
}

/// The wall-height aspect ratio as raw `U11F21` bits.
pub open spec fn aspect_ratio(width: int, height: int) -> int {
    aspect_ratio_whole(width, height) * 0x20_0000
}

pub open spec fn valid_width(width: int) -> bool {
    128 <= width <= 1024 && width % 2 == 0
}

pub open spec fn valid_height(height: int) -> bool {
    64 <= height <= 1024 && height % 2 == 0
}

/// The constants a renderer is built for: canvas size, projection, table.
#[derive(Debug)]
pub struct RaycastingParameters {
    canvas_width_pixels: u16,
    canvas_height_pixels: u16,
    canvas_column_normalising_factor: u16,
    aspect_ratio_for_wall_height: u32,
    projection_plane_vector_y: i16,
    max_ray_cell_probes: usize,
    trigonometry: SineTable,
}

impl RaycastingParameters {
    pub closed spec fn width(&self) -> int {
        self.canvas_width_pixels as int
    }

    pub closed spec fn height(&self) -> int {
        self.canvas_height_pixels as int
    }

    pub closed spec fn normalising(&self) -> int {
        self.canvas_column_normalising_factor as int
    }

    pub closed spec fn aspect(&self) -> int {
        self.aspect_ratio_for_wall_height as int
    }

    pub closed spec fn plane_y(&self) -> int {
        self.projection_plane_vector_y as int
    }

    pub closed spec fn probes(&self) -> int {
        self.max_ray_cell_probes as int
    }

    pub closed spec fn table(&self) -> SineTable {
        self.trigonometry
    }

    /// The derived constants agree with the canvas size, and the table is
    /// well formed.
    pub open spec fn wf(&self) -> bool {
        &&& valid_width(self.width())
        &&& valid_height(self.height())
        &&& self.normalising() == normalising_factor(self.width())
        &&& aspect_ratio_whole(self.width(), self.height()) < 0x800
        &&& self.aspect() == aspect_ratio(self.width(), self.height())
        &&& 0 < self.plane_y()
        &&& self.table().wf()
    }

    /// Validates a configuration and derives its constants.
    ///
    /// `projection_plane_vector_y` is tan(field of view / 2) as raw `I1F15`
    /// bits; `max_ray_cell_probes` bounds each ray walk.
    pub fn new(
        canvas_width_pixels: u16,
        canvas_height_pixels: u16,
        projection_plane_vector_y: i16,
        max_ray_cell_probes: usize,
        trigonometry: SineTable,
    ) -> (r: Result<RaycastingParameters, ConfigurationError>)
        requires
            trigonometry.wf(),
        ensures
            r is Ok <==> (valid_width(canvas_width_pixels as int) && valid_height(canvas_height_pixels as int)
                && aspect_ratio_whole(canvas_width_pixels as int, canvas_height_pixels as int) < 0x800
                && projection_plane_vector_y > 0),
            r == Err::<RaycastingParameters, _>(ConfigurationError::CanvasWidth) <==> !valid_width(canvas_width_pixels as int),
            r == Err::<RaycastingParameters, _>(ConfigurationError::CanvasHeight) <==> valid_width(canvas_width_pixels as int)
                && !valid_height(canvas_height_pixels as int),
            r matches Ok(p) ==> {
                &&& p.wf()
                &&& p.width() == canvas_width_pixels
                &&& p.height() == canvas_height_pixels
                &&& p.plane_y() == projection_plane_vector_y
                &&& p.probes() == max_ray_cell_probes
                &&& p.table() == trigonometry
            },
    {
        if canvas_width_pixels < 128 || canvas_width_pixels > 1024 || canvas_width_pixels % 2 != 0 {
            return Err(ConfigurationError::CanvasWidth);
        }
        if canvas_height_pixels < 64 || canvas_height_pixels > 1024 || canvas_height_pixels % 2 != 0 {
            return Err(ConfigurationError::CanvasHeight);
        }
        let w = canvas_width_pixels as u32;
        let h = canvas_height_pixels as u32;
        assert(h * h <= 0x10_0000) by (nonlinear_arith)
            requires h <= 1024;
        let whole = (h * h) / w;
        if whole >= 0x800 {
            return Err(ConfigurationError::AspectRatioOverflow);
        }
        if projection_plane_vector_y <= 0 {
            return Err(ConfigurationError::FieldOfView);
        }
        let nf = (0x8000_0000u32 / w) / 0x4000;
        assert(nf <= 0x400) by (nonlinear_arith)
            requires nf == (0x8000_0000u32 / w) / 0x4000, w >= 128;
        Ok(RaycastingParameters {
            canvas_width_pixels,
            canvas_height_pixels,
            canvas_column_normalising_factor: nf as u16,
            aspect_ratio_for_wall_height: whole * 0x20_0000,
            projection_plane_vector_y,
            max_ray_cell_probes,
            trigonometry,
        })
    }

    pub fn canvas_width_pixels(&self) -> (r: u16)
        ensures
            r == self.width(),
    {
        self.canvas_width_pixels
    }

    pub fn canvas_height_pixels(&self) -> (r: u16)
        ensures
            r == self.height(),
    {
        self.canvas_height_pixels
    }

    pub fn canvas_column_normalising_factor(&self) -> (r: u16)
        ensures
            r == self.normalising(),
    {
        self.canvas_column_normalising_factor
    }

    pub fn aspect_ratio_for_wall_height(&self) -> (r: u32)
        ensures
            r == self.aspect(),
    {
        self.aspect_ratio_for_wall_height
    }

    pub fn projection_plane_vector_y(&self) -> (r: i16)
        ensures
            r == self.plane_y(),
    {
        self.projection_plane_vector_y
    }

    pub fn max_ray_cell_probes(&self) -> (r: usize)
        ensures
            r == self.probes(),
    {
        self.max_ray_cell_probes
    }

    pub fn trigonometry(&self) -> (r: &SineTable)
        ensures
            *r == self.table(),
    {
        &self.trigonometry
    }
}

/// Two configurations of the same canvas height: the wall-height aspect
/// ratio differs whenever height² / width differs in its whole part, and it
/// never grows as the canvas widens.  (The sine table is not derived from the
/// canvas at all: `new` keeps the table it is given.)
pub proof fn lemma_width_changes_aspect(p: RaycastingParameters, q: RaycastingParameters)
    requires
        p.wf(),
        q.wf(),
        p.height() == q.height(),
    ensures
        aspect_ratio_whole(p.width(), p.height()) != aspect_ratio_whole(q.width(), q.height())
            ==> p.aspect() != q.aspect(),
        p.width() <= q.width() ==> p.aspect() >= q.aspect(),
{
    let hh = p.height() * p.height();
    if p.width() <= q.width() {
        assert(hh / p.width() >= hh / q.width()) by (nonlinear_arith)
            requires p.width() <= q.width(), p.width() > 0, hh >= 0;
    }
}

} // verus!
