//! The bookkeeping of the renderers: pixel addressing, which thread draws
//! which column of the sky, random pixel choice, and the running per-pixel
//! sums of the path tracer.

use rand::rngs::ThreadRng;
use rand::Rng;
use vstd::prelude::*;

use crate::binary64::{binary64_from_integer, from_integer};
use crate::vector::{vdivided, vsum, vzero, Vector};

verus! {

/// The position of pixel `(x, y)` in a row-major buffer `width` pixels wide.
pub open spec fn pixel_offset(x: int, y: int, width: int) -> int {
    x + y * width
}

proof fn lemma_offset_in_bounds(x: int, y: int, width: int, height: int)
    requires
        0 <= x < width,
        0 <= y < height,
    ensures
        0 <= pixel_offset(x, y, width) < width * height,
{
    assert(0 <= y * width) by (nonlinear_arith)
        requires
            0 <= y,
            0 <= width,
    ;
    assert(y * width + width <= height * width) by (nonlinear_arith)
        requires
            y + 1 <= height,
            0 <= width,
    ;
    assert(height * width == width * height) by (nonlinear_arith);
}

/// The index of pixel `(x, y)` in a row-major buffer of `width * height` pixels.
pub fn pixel_index(x: usize, y: usize, width: usize, height: usize) -> (i: usize)
    requires
        x < width,
        y < height,
        width * height <= usize::MAX,
    ensures
        i == pixel_offset(x as int, y as int, width as int),
        i < width * height,
{
    proof {
        lemma_offset_in_bounds(x as int, y as int, width as int, height as int);
    }
    x + y * width
}

/// Distinct pixels have distinct indices: the index gives back the column
/// as its remainder and the row as its quotient by the width.
pub proof fn lemma_pixel_index_inverse(x: int, y: int, width: int)
    requires
        0 <= x < width,
        0 <= y,
    ensures
        pixel_offset(x, y, width) % width == x,
        pixel_offset(x, y, width) / width == y,
{
    vstd::arithmetic::div_mod::lemma_fundamental_div_mod_converse(
        pixel_offset(x, y, width),
        width,
        y,
        x,
    );
}

/// Thread `thread` of `threads` draws the columns congruent to it.
pub open spec fn draws_column(column: int, thread: int, threads: int) -> bool {
    column % threads == thread
}

/// Whether thread `thread` of `threads` draws column `column` of the sky.
pub fn renders_column(column: usize, thread: usize, threads: usize) -> (r: bool)
    requires
        threads > 0,
    ensures
        r == draws_column(column as int, thread as int, threads as int),
{
    column % threads == thread
}

/// Every column is drawn by exactly one of the threads `0..threads`.
pub proof fn lemma_columns_partitioned(column: usize, threads: usize)
    requires
        threads > 0,
    ensures
        column % threads < threads,
        draws_column(column as int, (column % threads) as int, threads as int),
        forall|t: int| #[trigger] draws_column(column as int, t, threads as int) ==> t == column % threads,
{
}

#[verifier::external_type_specification]
#[verifier::external_body]
pub struct ExThreadRng(ThreadRng);

/// Calls `rand::Rng::gen_range(0, bound)` on the thread's generator, which
/// returns a value in `[0, bound)` and panics when `bound` is 0. Which value
/// comes out is left to chance and is not stated.
#[verifier::external_body]
fn random_below(rng: &mut ThreadRng, bound: usize) -> (r: usize)
    requires
        bound > 0,
    ensures
        r < bound,
{
    rng.gen_range(0, bound)
}

/// A pixel chosen at random: a column below `width` and a row below `height`.
pub fn choose_pixel(rng: &mut ThreadRng, width: usize, height: usize) -> (r: (usize, usize))
    requires
        width > 0,
        height > 0,
    ensures
        r.0 < width,
        r.1 < height,
{
    let x: usize = random_below(rng, width);
    let y: usize = random_below(rng, height);
    (x, y)
}

/// The running sums of the path tracer: per pixel, the sum of the colours
/// traced through it and the number of samples that sum holds.
pub struct SampleAccumulator {
    width: usize,
    height: usize,
    colors: Vec<Vector>,
    counts: Vec<u64>,
}

impl SampleAccumulator {
    /// One colour sum and one count per pixel.
    pub closed spec fn wf(self) -> bool {
        &&& self.width * self.height <= usize::MAX
        &&& self.colors.len() == self.width * self.height
        &&& self.counts.len() == self.width * self.height
    }

    /// The image width in pixels.
    pub closed spec fn width(self) -> nat {
        self.width as nat
    }

    /// The image height in pixels.
    pub closed spec fn height(self) -> nat {
        self.height as nat
    }

    /// The colour sums, row-major.
    pub closed spec fn colors(self) -> Seq<Vector> {
        self.colors@
    }

    /// The sample counts, row-major.
    pub closed spec fn counts(self) -> Seq<u64> {
        self.counts@
    }

    /// Sums of zero and counts of zero for a `width` by `height` image.
    pub fn new(width: usize, height: usize) -> (r: SampleAccumulator)
        requires
            width * height <= usize::MAX,
        ensures
            r.wf(),
            r.width() == width,
            r.height() == height,
            r.colors() == Seq::new((width * height) as nat, |i: int| vzero()),
            r.counts() == Seq::new((width * height) as nat, |i: int| 0u64),
    {
        let n: usize = width * height;
        let mut colors: Vec<Vector> = Vec::new();
        let mut counts: Vec<u64> = Vec::new();
        let mut i: usize = 0;
        while i < n
            invariant
                i <= n,
                colors@ == Seq::new(i as nat, |k: int| vzero()),
                counts@ == Seq::new(i as nat, |k: int| 0u64),
            decreases n - i,
        {
            colors.push(Vector::zero());
            counts.push(0);
            i = i + 1;
        }
        SampleAccumulator { width, height, colors, counts }
    }

    /// The width in pixels.
    pub fn get_width(&self) -> (r: usize)
        ensures
            r == self.width(),
    {
        self.width
    }

    /// The height in pixels.
    pub fn get_height(&self) -> (r: usize)
        ensures
            r == self.height(),
    {
        self.height
    }

    /// The number of samples recorded so far for pixel `(x, y)`.
    pub fn count(&self, x: usize, y: usize) -> (r: u64)
        requires
            self.wf(),
            x < self.width(),
            y < self.height(),
        ensures
            r == self.counts()[pixel_offset(x as int, y as int, self.width() as int)],
    {
        let i: usize = pixel_index(x, y, self.width, self.height);
        self.counts[i]
    }

    /// The colour sum recorded so far for pixel `(x, y)`.
    pub fn color_sum(&self, x: usize, y: usize) -> (r: Vector)
        requires
            self.wf(),
            x < self.width(),
            y < self.height(),
        ensures
            r == self.colors()[pixel_offset(x as int, y as int, self.width() as int)],
    {
        let i: usize = pixel_index(x, y, self.width, self.height);
        self.colors[i]
    }

    /// Adds `color` (the sum of `samples` samples) to pixel `(x, y)` and
    /// returns the pixel's new mean colour: its colour sum divided by its
    /// sample count. No other pixel changes.
    pub fn record(&mut self, x: usize, y: usize, color: Vector, samples: u64) -> (r: Vector)
        requires
            old(self).wf(),
            x < old(self).width(),
            y < old(self).height(),
            old(self).counts()[pixel_offset(x as int, y as int, old(self).width() as int)] + samples
                <= u64::MAX,
        ensures
            final(self).wf(),
            final(self).width() == old(self).width(),
            final(self).height() == old(self).height(),
            final(self).colors() == old(self).colors().update(
                pixel_offset(x as int, y as int, old(self).width() as int),
                vsum(old(self).colors()[pixel_offset(x as int, y as int, old(self).width() as int)], color),
            ),
            final(self).counts() == old(self).counts().update(
                pixel_offset(x as int, y as int, old(self).width() as int),
                (old(self).counts()[pixel_offset(x as int, y as int, old(self).width() as int)] + samples) as u64,
            ),
            r == vdivided(
                final(self).colors()[pixel_offset(x as int, y as int, old(self).width() as int)],
                binary64_from_integer(final(self).counts()[pixel_offset(x as int, y as int, old(self).width() as int)]),
            ),
    {
        let i: usize = pixel_index(x, y, self.width, self.height);
        let total = self.colors[i].add(color);
        let count: u64 = self.counts[i] + samples;
        self.colors.set(i, total);
        self.counts.set(i, count);
        total.divide(from_integer(count))
    }
}

} // verus!
