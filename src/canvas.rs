use vstd::prelude::*;
use itertools::Itertools;
use crate::config::PALETTE_LEN;

verus! {

/// Relies on itertools' `cartesian_product` and `collect_vec`: every pair of
/// a value below `outer` and one below `inner`, the first component running
/// slowest, as the adaptor's `next` walks them.
#[verifier::external_body]
fn product_pairs(outer: i32, inner: i32) -> (r: Vec<(i32, i32)>)
    requires
        0 <= outer,
        0 <= inner,
        outer * inner <= usize::MAX,
    ensures
        r@.len() == outer * inner,
        forall|k: int| 0 <= k < r@.len() ==> #[trigger] r@[k] == ((k / inner as int) as i32, (k % inner as int) as i32),
{
    (0..outer).cartesian_product(0..inner).collect_vec()
}

/// The pixel at position `k` of a row-major canvas `width` pixels wide, as
/// (column, row).
pub open spec fn pixel_at(k: int, width: int) -> (i32, i32) {
    ((k % width) as i32, (k / width) as i32)
}

/// Every pixel of a `width` by `height` canvas as (column, row), row by row,
/// each row from left to right.
pub fn pixels(width: i32, height: i32) -> (r: Vec<(i32, i32)>)
    requires
        0 <= width,
        0 <= height,
        width * height <= usize::MAX,
    ensures
        r@.len() == width * height,
        forall|k: int| 0 <= k < r@.len() ==> #[trigger] r@[k] == pixel_at(k, width as int),
{
    proof {
        assert(height * width == width * height) by (nonlinear_arith);
    }
    let pairs = product_pairs(height, width);
    let mut r: Vec<(i32, i32)> = Vec::new();
    let mut k: usize = 0;
    while k < pairs.len()
        invariant
            pairs@.len() == height * width,
            forall|j: int| 0 <= j < pairs@.len() ==> #[trigger] pairs@[j] == ((j / width as int) as i32, (j % width as int) as i32),
            k <= pairs@.len(),
            r@.len() == k,
            forall|j: int| 0 <= j < k ==> #[trigger] r@[j] == pixel_at(j, width as int),
        decreases pairs@.len() - k,
    {
        let (row, column) = pairs[k];
        r.push((column, row));
        k = k + 1;
    }
    r
}

/// The offset of a pixel from the centre of the canvas, in pixels; the centre
/// is at half the width and half the height, rounded down.
pub open spec fn offset_of(pixel: (i32, i32), width: int, height: int) -> (int, int) {
    (pixel.0 - width / 2, pixel.1 - height / 2)
}

/// The offset of `pixel` from the canvas centre. Dividing it by the canvas
/// size gives the pixel's position in [-1/2, 1/2), which scaled by the
/// viewport extent and moved by the viewport centre is its point of the plane.
pub fn pixel_offset(pixel: (i32, i32), width: i32, height: i32) -> (r: (i32, i32))
    requires
        0 <= pixel.0 < width,
        0 <= pixel.1 < height,
    ensures
        (r.0 as int, r.1 as int) == offset_of(pixel, width as int, height as int),
{
    (pixel.0 - width / 2, pixel.1 - height / 2)
}

/// The pixel at half the width and half the height has no offset, so it is
/// mapped to the viewport centre whatever the extent.
pub proof fn centre_pixel_has_no_offset(width: i32, height: i32)
    requires
        0 < width,
        0 < height,
    ensures
        offset_of(((width / 2) as i32, (height / 2) as i32), width as int, height as int) == (0int, 0int),
        0 <= width / 2 < width as int,
        0 <= height / 2 < height as int,
{
}

/// A fixed table of one colour per intensity byte.
pub struct Palette<C> {
    colors: Vec<C>,
}

impl<C> View for Palette<C> {
    type V = Seq<C>;

    closed spec fn view(&self) -> Seq<C> {
        self.colors@
    }
}

impl<C> Palette<C> {
    #[verifier::type_invariant]
    spec fn one_color_per_level(&self) -> bool {
        self.colors@.len() == PALETTE_LEN
    }
}

impl<C: Copy> Palette<C> {
    /// A palette of the given colours, the first for intensity 0; `None`
    /// unless there is exactly one colour per intensity byte.
    pub fn new(colors: Vec<C>) -> (r: Option<Palette<C>>)
        ensures
            r.is_some() <==> colors@.len() == PALETTE_LEN,
            r.is_some() ==> r.unwrap()@ == colors@,
    {
        if colors.len() == PALETTE_LEN {
            Some(Palette { colors })
        } else {
            None
        }
    }

    /// The number of colours: always one per intensity byte.
    pub fn len(&self) -> (n: usize)
        ensures
            n == self@.len(),
            n == PALETTE_LEN,
    {
        proof {
            use_type_invariant(self);
        }
        self.colors.len()
    }

    /// The colour of an intensity; every byte has one.
    pub fn color(&self, level: u8) -> (c: C)
        ensures
            self@.len() == PALETTE_LEN,
            c == self@[level as int],
    {
        proof {
            use_type_invariant(self);
        }
        self.colors[level as usize]
    }
}

/// Each intensity of a canvas replaced by its colour, in the same order.
pub fn colorize<C: Copy>(levels: &Vec<u8>, palette: &Palette<C>) -> (r: Vec<C>)
    ensures
        r@.len() == levels@.len(),
        forall|k: int| 0 <= k < levels@.len() ==> #[trigger] r@[k] == palette@[levels@[k] as int],
{
    let mut r: Vec<C> = Vec::new();
    let mut k: usize = 0;
    while k < levels.len()
        invariant
            k <= levels@.len(),
            r@.len() == k,
            forall|j: int| 0 <= j < k ==> #[trigger] r@[j] == palette@[levels@[j] as int],
        decreases levels@.len() - k,
    {
        r.push(palette.color(levels[k]));
        k = k + 1;
    }
    r
}

} // verus!
