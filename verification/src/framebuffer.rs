//! Framebuffer writer.
//!
//! Maps logical pixel coordinates and a 24-bit color to one palette index
//! byte of a linear 256-color surface. Every operation is write-only: a
//! device memory region may not reliably support read-back, so nothing here
//! depends on what the surface already holds.

use vstd::prelude::*;

verus! {

/// First palette index the quantized color cube starts at.
pub const PALETTE_OFFSET: u8 = 16;

/// Quantization levels per red channel.
pub const RED_LEVELS: u8 = 6;

/// Quantization levels per green channel.
pub const GREEN_LEVELS: u8 = 6;

/// A 24-bit color, one byte per channel.
#[derive(PartialEq, Eq, Structural, Clone, Copy, Debug)]
pub struct Rgb {
    pub r: u8,
    pub g: u8,
    pub b: u8,
}

/// One requested pixel write: a logical coordinate, possibly off the
/// surface, and the color to quantize.
#[derive(PartialEq, Eq, Structural, Clone, Copy, Debug)]
pub struct PixelOp {
    pub x: i32,
    pub y: i32,
    pub color: Rgb,
}

/// The quantization level of one channel value: zero for the first 26
/// values, then one level per further 51 — a monotonic mapping that is
/// coarser at low intensities, matching the output device's perceptual
/// limits. Always at most 5.
pub open spec fn quant_level(c: u8) -> u8 {
    if c < 26 {
        0u8
    } else {
        (((c - 26) / 51) + 1) as u8
    }
}

/// Quantizes one color channel into its level.
pub fn color_component_to_safe_color(c: u8) -> (r: u8)
    ensures
        r == quant_level(c),
        r <= 5,
{
    if c < 26 {
        0
    } else {
        (c - 26) / 51 + 1
    }
}

/// The palette index a color maps to: the three channel levels combined
/// into the 6-by-6-by-6 color cube that starts at [`PALETTE_OFFSET`]. The
/// same color always yields the same index; the result never exceeds 231.
pub open spec fn palette_index_spec(color: Rgb) -> u8 {
    (PALETTE_OFFSET + quant_level(color.r) + quant_level(color.g) * RED_LEVELS + quant_level(
        color.b,
    ) * RED_LEVELS * GREEN_LEVELS) as u8
}

/// Computes the palette index of a color.
pub fn palette_index(color: Rgb) -> (r: u8)
    ensures
        r == palette_index_spec(color),
        PALETTE_OFFSET <= r <= 231,
{
    let rl = color_component_to_safe_color(color.r);
    let gl = color_component_to_safe_color(color.g);
    let bl = color_component_to_safe_color(color.b);
    PALETTE_OFFSET + rl + gl * RED_LEVELS + bl * RED_LEVELS * GREEN_LEVELS
}

/// Quantization is monotonic: for a fixed channel, a larger input value
/// never yields a smaller level.
pub proof fn lemma_quant_level_monotonic(a: u8, b: u8)
    requires
        a <= b,
    ensures
        quant_level(a) <= quant_level(b),
{
    if 26 <= a {
        assert((a - 26) / 51 <= (b - 26) / 51) by (nonlinear_arith)
            requires
                26 <= a <= b,
        ;
    }
}

/// Whether a logical coordinate lies on a surface of the given dimensions.
pub open spec fn pixel_in_bounds(width: int, height: int, x: int, y: int) -> bool {
    0 <= x < width && 0 <= y < height
}

/// Whether one requested pixel write lands on byte `i` of the surface.
pub open spec fn op_targets(width: int, height: int, op: PixelOp, i: int) -> bool {
    pixel_in_bounds(width, height, op.x as int, op.y as int) && i == op.y * width + op.x
}

/// The surface contents after one requested pixel write: the palette index
/// of its color at `y * width + x` when the coordinate is on the surface,
/// the contents unchanged otherwise.
pub open spec fn draw_one_spec(s: Seq<u8>, width: int, height: int, op: PixelOp) -> Seq<u8> {
    if pixel_in_bounds(width, height, op.x as int, op.y as int) {
        s.update(op.y * width + op.x, palette_index_spec(op.color))
    } else {
        s
    }
}

/// The surface contents after a batch of requested pixel writes, applied in
/// input order.
pub open spec fn draw_batch_spec(s: Seq<u8>, width: int, height: int, ops: Seq<PixelOp>) -> Seq<
    u8,
>
    decreases ops.len(),
{
    if ops.len() == 0 {
        s
    } else {
        draw_one_spec(draw_batch_spec(s, width, height, ops.drop_last()), width, height, ops.last())
    }
}

/// An on-surface coordinate indexes a byte of the surface.
pub proof fn lemma_index_in_range(width: int, height: int, x: int, y: int)
    requires
        pixel_in_bounds(width, height, x, y),
    ensures
        0 <= y * width + x < width * height,
{
    assert(0 <= y * width + x < width * height) by (nonlinear_arith)
        requires
            0 <= x < width && 0 <= y < height,
    ;
}

/// A batch never changes how many bytes the surface holds.
pub proof fn lemma_draw_batch_len(s: Seq<u8>, width: int, height: int, ops: Seq<PixelOp>)
    requires
        s.len() == width * height,
    ensures
        draw_batch_spec(s, width, height, ops).len() == s.len(),
    decreases ops.len(),
{
    if ops.len() > 0 {
        lemma_draw_batch_len(s, width, height, ops.drop_last());
        let op = ops.last();
        if pixel_in_bounds(width, height, op.x as int, op.y as int) {
            lemma_index_in_range(width, height, op.x as int, op.y as int);
        }
    }
}

/// A batch writes only where one of its on-surface writes lands: every byte
/// that no write of the batch targets keeps its prior value.
pub proof fn lemma_draw_batch_untouched(
    s: Seq<u8>,
    width: int,
    height: int,
    ops: Seq<PixelOp>,
    i: int,
)
    requires
        s.len() == width * height,
        0 <= i < s.len(),
        forall|j: int| 0 <= j < ops.len() ==> !op_targets(width, height, ops[j], i),
    ensures
        draw_batch_spec(s, width, height, ops)[i] == s[i],
    decreases ops.len(),
{
    if ops.len() > 0 {
        assert(!op_targets(width, height, ops[ops.len() - 1], i));
        lemma_draw_batch_untouched(s, width, height, ops.drop_last(), i);
        lemma_draw_batch_len(s, width, height, ops.drop_last());
        let op = ops.last();
        if pixel_in_bounds(width, height, op.x as int, op.y as int) {
            lemma_index_in_range(width, height, op.x as int, op.y as int);
        }
    }
}

/// The color of the last write of a batch that lands on byte `i`.
pub open spec fn last_writer_color(width: int, height: int, ops: Seq<PixelOp>, i: int) -> Rgb
    decreases ops.len(),
{
    if ops.len() == 0 {
        arbitrary()
    } else if op_targets(width, height, ops.last(), i) {
        ops.last().color
    } else {
        last_writer_color(width, height, ops.drop_last(), i)
    }
}

/// Every byte that some write of a batch lands on ends at the computed
/// palette index of the last such write — later writes of the batch
/// overwrite earlier ones, in input order.
pub proof fn lemma_draw_batch_touched(
    s: Seq<u8>,
    width: int,
    height: int,
    ops: Seq<PixelOp>,
    i: int,
)
    requires
        s.len() == width * height,
        0 <= i < s.len(),
        exists|j: int| 0 <= j < ops.len() && op_targets(width, height, ops[j], i),
    ensures
        draw_batch_spec(s, width, height, ops)[i] == palette_index_spec(
            last_writer_color(width, height, ops, i),
        ),
    decreases ops.len(),
{
    let op = ops.last();
    lemma_draw_batch_len(s, width, height, ops.drop_last());
    if op_targets(width, height, ops.last(), i) {
        lemma_index_in_range(width, height, op.x as int, op.y as int);
    } else {
        let j = choose|j: int| 0 <= j < ops.len() && op_targets(width, height, ops[j], i);
        assert(0 <= j < ops.drop_last().len() && op_targets(
            width,
            height,
            ops.drop_last()[j],
            i,
        ));
        lemma_draw_batch_touched(s, width, height, ops.drop_last(), i);
        if pixel_in_bounds(width, height, op.x as int, op.y as int) {
            lemma_index_in_range(width, height, op.x as int, op.y as int);
        }
    }
}

/// Clearing the surface and then applying any batch of pixel writes leaves
/// every byte no write landed on at the cleared value, and every byte some
/// write landed on at the computed palette index of the last write that
/// landed there.
pub proof fn lemma_clear_then_draw(
    width: int,
    height: int,
    value: u8,
    ops: Seq<PixelOp>,
    i: int,
)
    requires
        0 <= i < width * height,
    ensures
        (forall|j: int| 0 <= j < ops.len() ==> !op_targets(width, height, ops[j], i))
            ==> draw_batch_spec(
            Seq::new((width * height) as nat, |k: int| value),
            width,
            height,
            ops,
        )[i] == value,
        (exists|j: int| 0 <= j < ops.len() && op_targets(width, height, ops[j], i))
            ==> draw_batch_spec(
            Seq::new((width * height) as nat, |k: int| value),
            width,
            height,
            ops,
        )[i] == palette_index_spec(last_writer_color(width, height, ops, i)),
{
    let cleared = Seq::new((width * height) as nat, |k: int| value);
    if forall|j: int| 0 <= j < ops.len() ==> !op_targets(width, height, ops[j], i) {
        lemma_draw_batch_untouched(cleared, width, height, ops, i);
    }
    if exists|j: int| 0 <= j < ops.len() && op_targets(width, height, ops[j], i) {
        lemma_draw_batch_touched(cleared, width, height, ops, i);
    }
}

/// A linear 256-color surface: `width * height` palette-index bytes, where
/// the byte of the pixel at (x, y) sits at index `y * width + x`. The view
/// is the sequence of those bytes.
pub struct Mode13Display {
    width: usize,
    height: usize,
    fb: Vec<u8>,
}

impl Mode13Display {
    /// The surface contents, one palette-index byte per pixel.
    pub closed spec fn view(&self) -> Seq<u8> {
        self.fb@
    }

    /// Surface width in pixels.
    pub closed spec fn width(&self) -> int {
        self.width as int
    }

    /// Surface height in pixels.
    pub closed spec fn height(&self) -> int {
        self.height as int
    }

    /// The surface invariant: exactly one byte per pixel.
    pub closed spec fn wf(&self) -> bool {
        self.fb@.len() == self.width * self.height
    }

    /// Creates a surface of the given dimensions with every byte zero.
    pub fn new(width: usize, height: usize) -> (d: Self)
        requires
            width * height <= usize::MAX,
        ensures
            d.wf(),
            d.width() == width,
            d.height() == height,
            d@ == Seq::new((width * height) as nat, |i: int| 0u8),
    {
        proof {
            assert(0 <= width * height) by (nonlinear_arith);
        }
        let n = width * height;
        let mut fb: Vec<u8> = Vec::new();
        while fb.len() < n
            invariant
                fb@.len() <= n,
                forall|k: int| 0 <= k < fb@.len() ==> fb@[k] == 0u8,
            decreases n - fb@.len(),
        {
            fb.push(0u8);
        }
        let d = Mode13Display { width, height, fb };
        proof {
            assert(d@ =~= Seq::new((width * height) as nat, |i: int| 0u8));
        }
        d
    }

    /// Creates the legacy mode 13h surface: 320 by 200 pixels.
    pub fn mode13() -> (d: Self)
        ensures
            d.wf(),
            d.width() == 320,
            d.height() == 200,
            d@ == Seq::new(64000, |i: int| 0u8),
    {
        Self::new(320, 200)
    }

    /// Surface dimensions in pixels.
    pub fn size(&self) -> (r: (usize, usize))
        ensures
            r.0 == self.width(),
            r.1 == self.height(),
    {
        (self.width, self.height)
    }

    /// The surface contents, for inspection. No drawing operation reads the
    /// surface; this accessor exists for callers that keep the surface in
    /// ordinary memory.
    pub fn contents(&self) -> (r: &Vec<u8>)
        ensures
            r@ == self@,
    {
        &self.fb
    }

    /// Writes one pixel: bounds-checks the coordinate, quantizes the color,
    /// and writes exactly the one byte at `y * width + x` — or rejects an
    /// off-surface coordinate without writing anything.
    pub fn set_pixel(&mut self, x: i32, y: i32, color: Rgb) -> (r: Option<()>)
        requires
            old(self).wf(),
        ensures
            final(self).wf(),
            final(self).width() == old(self).width(),
            final(self).height() == old(self).height(),
            r is Some <==> pixel_in_bounds(old(self).width(), old(self).height(), x as int, y as int),
            final(self)@ == draw_one_spec(
                old(self)@,
                old(self).width(),
                old(self).height(),
                (PixelOp { x, y, color }),
            ),
    {
        if x >= 0 && y >= 0 && (x as usize) < self.width && (y as usize) < self.height {
            let xu = x as usize;
            let yu = y as usize;
            proof {
                lemma_index_in_range(self.width(), self.height(), xu as int, yu as int);
                assert(self.fb.len() == self@.len());
            }
            let index = yu * self.width + xu;
            let value = palette_index(color);
            self.fb[index] = value;
            Some(())
        } else {
            None
        }
    }

    /// Applies a batch of requested pixel writes in input order. Writes that
    /// fail the bounds check are skipped silently and drawing continues:
    /// partial, off-surface geometry is clipped, never an aggregate failure.
    pub fn draw_pixel_batch(&mut self, ops: &Vec<PixelOp>)
        requires
            old(self).wf(),
        ensures
            final(self).wf(),
            final(self).width() == old(self).width(),
            final(self).height() == old(self).height(),
            final(self)@ == draw_batch_spec(
                old(self)@,
                old(self).width(),
                old(self).height(),
                ops@,
            ),
    {
        let n = ops.len();
        let mut i: usize = 0;
        while i < n
            invariant
                i <= n,
                n == ops@.len(),
                self.wf(),
                self.width() == old(self).width(),
                self.height() == old(self).height(),
                self@ == draw_batch_spec(
                    old(self)@,
                    old(self).width(),
                    old(self).height(),
                    ops@.take(i as int),
                ),
            decreases n - i,
        {
            let op = ops[i];
            self.set_pixel(op.x, op.y, op.color);
            proof {
                assert(ops@.take(i as int + 1).drop_last() =~= ops@.take(i as int));
                assert(ops@.take(i as int + 1).last() == ops@[i as int]);
            }
            i = i + 1;
        }
        proof {
            assert(ops@.take(n as int) =~= ops@);
        }
    }

    /// Writes `value` into every byte of the surface exactly once.
    pub fn clear(&mut self, value: u8)
        requires
            old(self).wf(),
        ensures
            final(self).wf(),
            final(self).width() == old(self).width(),
            final(self).height() == old(self).height(),
            final(self)@ == Seq::new(old(self)@.len(), |i: int| value),
    {
        let n = self.fb.len();
        let mut i: usize = 0;
        while i < n
            invariant
                i <= n,
                n == self@.len(),
                self.wf(),
                self.width == old(self).width,
                self.height == old(self).height,
                self@.len() == old(self)@.len(),
                forall|k: int| 0 <= k < i ==> self@[k] == value,
                forall|k: int| i <= k < n ==> self@[k] == old(self)@[k],
            decreases n - i,
        {
            self.fb[i] = value;
            i = i + 1;
        }
        proof {
            assert(self@ =~= Seq::new(old(self)@.len(), |i: int| value));
        }
    }
}

} // verus!
