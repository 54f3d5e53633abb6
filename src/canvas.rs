//! Colours and the pixel sink that frames are drawn onto.

use vstd::prelude::*;

use crate::result::Error;

verus! {

/// A palette index.
#[derive(Clone, Copy, Debug, PartialEq, Eq, Structural)]
pub struct Colour {
    pub index: u8,
}

impl Colour {
    pub fn new(index: u8) -> (r: Colour)
        ensures
            r.index == index,
    {
        Colour { index }
    }

    pub fn as_index(self) -> (r: u8)
        ensures
            r == self.index,
    {
        self.index
    }
}

/// One pixel handed to a sink: column, row, colour.
pub type PixelWrite = (u16, u16, Colour);

/// A pixel sink.  Coordinates must lie within the canvas; the core never
/// writes outside the configured canvas size.
pub trait Canvas {
    /// The pixels the sink has accepted so far, in order.  A sink written
    /// outside verified code has nothing to record them with.
    closed spec fn writes(&self) -> Seq<PixelWrite> {
        Seq::empty()
    }

    /// How many writes the sink has refused so far.
    closed spec fn refusals(&self) -> nat {
        0
    }

    /// Writes one pixel; a refused write is counted and nothing is recorded.
    fn set_pixel(&mut self, x: u16, y: u16, colour: Colour) -> (r: Result<(), Error>)
        ensures
            r is Ok ==> final(self).writes() == old(self).writes().push((x, y, colour))
                && final(self).refusals() == old(self).refusals(),
            r is Err ==> final(self).writes() == old(self).writes()
                && final(self).refusals() == old(self).refusals() + 1,
    ;
}

/// An in-memory canvas: one palette index per pixel, row by row.
pub struct FrameBuffer {
    width: u16,
    height: u16,
    pixels: Vec<u8>,
    accepted: Ghost<Seq<PixelWrite>>,
    refused: Ghost<nat>,
}

impl FrameBuffer {
    pub closed spec fn pixels(&self) -> Seq<u8> {
        self.pixels@
    }

    pub closed spec fn size(&self) -> (int, int) {
        (self.width as int, self.height as int)
    }

    pub closed spec fn wf(&self) -> bool {
        self.pixels@.len() == self.width * self.height
    }

    /// A `width` by `height` buffer filled with palette index 0.
    pub fn new(width: u16, height: u16) -> (r: FrameBuffer)
        ensures
            r.wf(),
            r.size() == (width as int, height as int),
            r.pixels() == Seq::new((width * height) as nat, |i: int| 0u8),
            r.writes().len() == 0,
    {
        assert((width as int) * (height as int) <= 0xfffe_0001) by (nonlinear_arith)
            requires width <= 0xffff, height <= 0xffff;
        let total: usize = width as usize * height as usize;
        let mut pixels: Vec<u8> = Vec::new();
        let mut i: usize = 0;
        while i < total
            invariant
                i <= total,
                pixels@ =~= Seq::new(i as nat, |k: int| 0u8),
            decreases total - i,
        {
            pixels.push(0);
            i = i + 1;
        }
        FrameBuffer { width, height, pixels, accepted: Ghost(Seq::empty()), refused: Ghost(0) }
    }

    /// The palette index at `(x, y)`, or `None` outside the buffer.
    pub fn pixel(&self, x: u16, y: u16) -> (r: Option<u8>)
        requires
            self.wf(),
        ensures
            x < self.size().0 && y < self.size().1 ==> r == Some(self.pixels()[y * self.size().0 + x]),
            !(x < self.size().0 && y < self.size().1) ==> r is None,
    {
        if x < self.width && y < self.height {
            assert(y as int * self.width as int + x < self.width as int * self.height as int
                && (self.width as int) * (self.height as int) <= 0xfffe_0001) by (nonlinear_arith)
                requires x < self.width, y < self.height, self.height <= 0xffff;
            let i = y as usize * self.width as usize + x as usize;
            Some(self.pixels[i])
        } else {
            None
        }
    }
}

impl Canvas for FrameBuffer {
    closed spec fn writes(&self) -> Seq<PixelWrite> {
        self.accepted@
    }

    closed spec fn refusals(&self) -> nat {
        self.refused@
    }

    /// Stores the pixel; refuses one outside the buffer.
    fn set_pixel(&mut self, x: u16, y: u16, colour: Colour) -> (r: Result<(), Error>) {
        assert((self.width as int) * (self.height as int) <= 0xfffe_0001) by (nonlinear_arith)
            requires self.width <= 0xffff, self.height <= 0xffff;
        if x < self.width && y < self.height && self.pixels.len() == self.width as usize * self.height as usize {
            assert(y as int * self.width as int + x < self.width as int * self.height as int) by (nonlinear_arith)
                requires x < self.width, y < self.height;
            let i = y as usize * self.width as usize + x as usize;
            self.pixels.set(i, colour.index);
            self.accepted = Ghost(self.accepted@.push((x, y, colour)));
            Ok(())
        } else {
            self.refused = Ghost(self.refused@ + 1);
            Err(Error::Str("pixel outside the frame buffer"))
        }
    }
}

/// Whether `p` is a prefix of `q`.
pub open spec fn is_prefix(p: Seq<PixelWrite>, q: Seq<PixelWrite>) -> bool {
    p.len() <= q.len() && q.take(p.len() as int) == p
}

/// The pixels a span of column `x` starting at row `y` writes: row `y + k`
/// gets the `k`th colour, and rows marked `None` are skipped.
pub open spec fn span_writes(x: u16, y: int, s: Seq<Option<Colour>>) -> Seq<PixelWrite>
    decreases s.len(),
{
    if s.len() == 0 {
        Seq::empty()
    } else {
        let rest = span_writes(x, y, s.drop_last());
        match s.last() {
            Some(c) => rest.push((x, (y + s.len() - 1) as u16, c)),
            None => rest,
        }
    }
}

/// The writes of the first `k` rows of a span are a prefix of the span's.
pub proof fn lemma_span_prefix(x: u16, y: int, s: Seq<Option<Colour>>, k: int)
    requires
        0 <= k <= s.len(),
    ensures
        is_prefix(span_writes(x, y, s.take(k)), span_writes(x, y, s)),
    decreases s.len() - k,
{
    if k == s.len() {
        assert(s.take(k) =~= s);
        assert(span_writes(x, y, s).take(span_writes(x, y, s).len() as int) =~= span_writes(x, y, s));
    } else {
        lemma_span_prefix(x, y, s, k + 1);
        let t1 = s.take(k + 1);
        assert(t1.drop_last() =~= s.take(k));
        let a = span_writes(x, y, s.take(k));
        let b = span_writes(x, y, t1);
        let q = span_writes(x, y, s);
        assert(b.take(a.len() as int) =~= a);
        assert(q.take(a.len() as int) =~= q.take(b.len() as int).take(a.len() as int));
    }
}

/// A prefix of `b` after all of `a` is a prefix of `a + b`, and `a` is one.
pub proof fn lemma_prefix_concat(a: Seq<PixelWrite>, p: Seq<PixelWrite>, b: Seq<PixelWrite>)
    requires
        is_prefix(p, b),
    ensures
        is_prefix(a + p, a + b),
        is_prefix(a, a + b),
{
    assert((a + b).take((a + p).len() as int) =~= a + p);
    assert((a + b).take(a.len() as int) =~= a);
}

/// Prefixes compose.
pub proof fn lemma_prefix_trans(p: Seq<PixelWrite>, q: Seq<PixelWrite>, r: Seq<PixelWrite>)
    requires
        is_prefix(p, q),
        is_prefix(q, r),
    ensures
        is_prefix(p, r),
{
    assert(r.take(p.len() as int) =~= r.take(q.len() as int).take(p.len() as int));
}

/// The writes of the first `k` rows of a span, after `a`, are a prefix of
/// `a`, the whole span's writes, and anything after them.
pub proof fn lemma_span_prefix_within(
    a: Seq<PixelWrite>,
    x: u16,
    y: int,
    s: Seq<Option<Colour>>,
    k: int,
    rest: Seq<PixelWrite>,
)
    requires
        0 <= k <= s.len(),
    ensures
        is_prefix(a + span_writes(x, y, s.take(k)), a + span_writes(x, y, s) + rest),
{
    lemma_span_prefix(x, y, s, k);
    let w = span_writes(x, y, s);
    let full = a + w + rest;
    assert(full =~= a + (w + rest));
    assert((w + rest).take(w.len() as int) =~= w);
    lemma_prefix_trans(span_writes(x, y, s.take(k)), w, w + rest);
    lemma_prefix_concat(a, span_writes(x, y, s.take(k)), w + rest);
}

} // verus!
