//! Textures sampled by normalised texel coordinates.

use vstd::prelude::*;

use crate::canvas::Colour;
use crate::coordinates::Vector2d;

verus! {

/// A texture: what each pair of raw `U0F16` texel coordinates samples.
pub trait Texture {
    spec fn wf(&self) -> bool;

    /// The texel at `(u, v)`, or `None` where it is transparent.
    spec fn texel(&self, u: u16, v: u16) -> Option<Colour>;

    fn get_texel_at(&self, coordinates: Vector2d<u16>) -> (r: Option<Colour>)
        requires
            self.wf(),
        ensures
            r == self.texel(coordinates.x, coordinates.y),
    ;
}

/// Whether `n` is a power of two that fits in a byte.
pub open spec fn is_byte_power_of_two(n: int) -> bool {
    n == 1 || n == 2 || n == 4 || n == 8 || n == 16 || n == 32 || n == 64 || n == 128
}

fn exec_is_byte_power_of_two(n: u8) -> (r: bool)
    ensures
        r == is_byte_power_of_two(n as int),
{
    n == 1 || n == 2 || n == 4 || n == 8 || n == 16 || n == 32 || n == 64 || n == 128
}

/// The colour of a stored pixel, unless it is the transparent sentinel.
pub open spec fn opaque_texel(pixel: u8, transparent: u16) -> Option<Colour> {
    if pixel as u16 != transparent {
        Some(Colour { index: pixel })
    } else {
        None
    }
}

/// Texel index along an axis of `size` pixels for a stretched texture: the
/// coordinate scaled to the size and rounded to nearest, clamped to the last.
pub open spec fn stretched_index(c: int, size: int) -> int {
    let i = (c * size + 0x8000) / 0x1_0000;
    if i < size - 1 { i } else { size - 1 }
}

/// Texel index along an axis of `size` pixels for a repeated texture: the
/// coordinate's top eight bits, wrapped to the size.
pub open spec fn repeated_index(c: int, size: int) -> int {
    (c / 0x100) % size
}

/// A texture that stretches over the whole wall face.
#[derive(Debug)]
pub struct StretchedStaticTexture {
    pixels: Vec<u8>,
    width: u8,
    height: u8,
    transparent_colour: u16,
}

/// A texture that tiles, one texel per 1/256 of the wall face.
#[derive(Debug)]
pub struct RepeatedStaticTexture {
    pixels: Vec<u8>,
    width: u8,
    height: u8,
    transparent_colour: u16,
}

/// Texels stored row by row, with sides that are powers of two; pixels past
/// the last row are ignored.
pub open spec fn valid_texture(pixels: Seq<u8>, width: int, height: int) -> bool {
    is_byte_power_of_two(width) && is_byte_power_of_two(height) && pixels.len() >= width * height
}

impl StretchedStaticTexture {
    pub closed spec fn pixels(&self) -> Seq<u8> {
        self.pixels@
    }

    pub closed spec fn width(&self) -> int {
        self.width as int
    }

    pub closed spec fn height(&self) -> int {
        self.height as int
    }

    pub closed spec fn transparent(&self) -> u16 {
        self.transparent_colour
    }

    /// A texture of `width` by `height` texels given row by row; `None` unless
    /// both sides are powers of two and there are enough pixels.  A pixel
    /// equal to `transparent_colour` is transparent.
    pub fn new(pixels: Vec<u8>, width: u8, height: u8, transparent_colour: u16) -> (r: Option<StretchedStaticTexture>)
        ensures
            r is Some <==> valid_texture(pixels@, width as int, height as int),
            r matches Some(t) ==> t.wf() && t.pixels() == pixels@ && t.width() == width && t.height() == height
                && t.transparent() == transparent_colour,
    {
        if !exec_is_byte_power_of_two(width) || !exec_is_byte_power_of_two(height) {
            return None;
        }
        if pixels.len() < width as usize * height as usize {
            return None;
        }
        Some(StretchedStaticTexture { pixels, width, height, transparent_colour })
    }
}

impl Texture for StretchedStaticTexture {
    open spec fn wf(&self) -> bool {
        valid_texture(self.pixels(), self.width(), self.height())
    }

    open spec fn texel(&self, u: u16, v: u16) -> Option<Colour> {
        let i = stretched_index(u as int, self.width());
        let j = stretched_index(v as int, self.height());
        opaque_texel(self.pixels()[j * self.width() + i], self.transparent())
    }

    fn get_texel_at(&self, coordinates: Vector2d<u16>) -> (r: Option<Colour>) {
        let w = self.width as u32;
        let h = self.height as u32;
        let u = stretched(coordinates.x, w);
        let v = stretched(coordinates.y, h);
        assert(w <= 128 && h <= 128);
        assert(v * w + u < w * h && w * h <= 0x4000) by (nonlinear_arith)
            requires u < w, v < h, w <= 128, h <= 128;
        assert(v * w + u < self.pixels@.len());
        let texel = self.pixels[(v * w + u) as usize];
        if texel as u16 != self.transparent_colour {
            Some(Colour::new(texel))
        } else {
            None
        }
    }
}

fn stretched(c: u16, size: u32) -> (r: u32)
    requires
        1 <= size <= 128,
    ensures
        r as int == stretched_index(c as int, size as int),
        r < size,
{
    assert(c as int * size as int <= 0x80_0000) by (nonlinear_arith)
        requires c <= 0xffff, size <= 128;
    let i = (c as u32 * size + 0x8000) / 0x1_0000;
    if i < size - 1 { i } else { size - 1 }
}

impl RepeatedStaticTexture {
    pub closed spec fn pixels(&self) -> Seq<u8> {
        self.pixels@
    }

    pub closed spec fn width(&self) -> int {
        self.width as int
    }

    pub closed spec fn height(&self) -> int {
        self.height as int
    }

    pub closed spec fn transparent(&self) -> u16 {
        self.transparent_colour
    }

    /// A texture of `width` by `height` texels given row by row; `None` unless
    /// both sides are powers of two and there are enough pixels.  A pixel
    /// equal to `transparent_colour` is transparent.
    pub fn new(pixels: Vec<u8>, width: u8, height: u8, transparent_colour: u16) -> (r: Option<RepeatedStaticTexture>)
        ensures
            r is Some <==> valid_texture(pixels@, width as int, height as int),
            r matches Some(t) ==> t.wf() && t.pixels() == pixels@ && t.width() == width && t.height() == height
                && t.transparent() == transparent_colour,
    {
        if !exec_is_byte_power_of_two(width) || !exec_is_byte_power_of_two(height) {
            return None;
        }
        if pixels.len() < width as usize * height as usize {
            return None;
        }
        Some(RepeatedStaticTexture { pixels, width, height, transparent_colour })
    }
}

impl Texture for RepeatedStaticTexture {
    open spec fn wf(&self) -> bool {
        valid_texture(self.pixels(), self.width(), self.height())
    }

    open spec fn texel(&self, u: u16, v: u16) -> Option<Colour> {
        let i = repeated_index(u as int, self.width());
        let j = repeated_index(v as int, self.height());
        opaque_texel(self.pixels()[j * self.width() + i], self.transparent())
    }

    fn get_texel_at(&self, coordinates: Vector2d<u16>) -> (r: Option<Colour>) {
        let w = self.width as u32;
        let h = self.height as u32;
        let u = (coordinates.x as u32 / 0x100) % w;
        let v = (coordinates.y as u32 / 0x100) % h;
        assert(w <= 128 && h <= 128);
        assert(v * w + u < w * h && w * h <= 0x4000) by (nonlinear_arith)
            requires u < w, v < h, w <= 128, h <= 128;
        assert(v * w + u < self.pixels@.len());
        let texel = self.pixels[(v * w + u) as usize];
        if texel as u16 != self.transparent_colour {
            Some(Colour::new(texel))
        } else {
            None
        }
    }
}

/// Repeated sampling is periodic: moving a coordinate by 256 texels times the
/// texture's size along an axis samples the same texel.
pub proof fn lemma_repeated_periodic(t: RepeatedStaticTexture, u: u16, v: u16, du: u16, dv: u16)
    requires
        t.wf(),
        du as int == u as int + 0x100 * t.width(),
        dv as int == v as int + 0x100 * t.height(),
    ensures
        t.texel(du, v) == t.texel(u, v),
        t.texel(u, dv) == t.texel(u, v),
{
    let w = t.width();
    let h = t.height();
    assert(repeated_index(du as int, w) == repeated_index(u as int, w)) by (nonlinear_arith)
        requires du as int == u as int + 0x100 * w, w >= 1, u >= 0;
    assert(repeated_index(dv as int, h) == repeated_index(v as int, h)) by (nonlinear_arith)
        requires dv as int == v as int + 0x100 * h, h >= 1, v >= 0;
}

/// Stretched sampling never moves backwards as a coordinate grows, and never
/// passes the last texel: a coordinate at (or rounding to) 1.0 clamps there.
pub proof fn lemma_stretched_monotonic_clamped(c1: int, c2: int, size: int)
    requires
        0 <= c1 <= c2,
        1 <= size,
    ensures
        stretched_index(c1, size) <= stretched_index(c2, size),
        stretched_index(c2, size) <= size - 1,
        c2 * size + 0x8000 >= (size - 1) * 0x1_0000 ==> stretched_index(c2, size) == size - 1,
{
    assert((c1 * size + 0x8000) / 0x1_0000 <= (c2 * size + 0x8000) / 0x1_0000) by (nonlinear_arith)
        requires c1 <= c2, size >= 1;
    assert(c2 * size + 0x8000 >= (size - 1) * 0x1_0000 ==> (c2 * size + 0x8000) / 0x1_0000 >= size - 1) by (nonlinear_arith)
        requires size >= 1, c2 >= 0;
}

} // verus!
