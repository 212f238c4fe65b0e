//! SigLIP2 NaFlex patch-budget validation and patch packing.

use vstd::prelude::*;

use crate::errors::ImageProcessorError;
use crate::geometry::ImageSize;
use crate::indexing::{lemma_quotient_below, lemma_split};

verus! {

/// NaFlex geometry or image conversion failure.
#[derive(Debug)]
pub enum Siglip2Error {
    /// Invalid or unrepresentable input or configuration dimensions.
    InvalidGeometry,
    /// Image decoding, resize, normalization or tensor failure.
    Image(ImageProcessorError),
}

/// Whether a patch size and patch budget are accepted: both non-zero and
/// within `u32`, and a buffer of `max_num_patches` patches of
/// `patch_size * patch_size` RGB four-byte values has a size that fits `usize`.
pub open spec fn siglip2_geometry_valid(patch_size: int, max_num_patches: int) -> bool {
    &&& 0 < patch_size <= u32::MAX
    &&& 0 < max_num_patches <= u32::MAX
    &&& patch_size * patch_size * 3 * max_num_patches * 4 <= usize::MAX
}

/// Aspect-preserving resize and fixed-budget patch settings.
#[derive(Clone, Copy, Debug, PartialEq, Eq)]
pub struct Siglip2ImageProcessor {
    patch_size: usize,
    max_num_patches: usize,
}

/// Position in the source image of packed value `o`: the value at row
/// `grid_y * patch + y`, column `grid_x * patch + x`, channel `c` of an
/// interleaved RGB image of width `width`, where `o` enumerates patches in
/// row-major grid order and, within a patch, rows, columns and channels.
pub open spec fn siglip2_packed_source(o: int, patch: int, grid_w: int, width: int) -> int {
    let depth = patch * patch * 3;
    let k = o / depth;
    let rem = o % depth;
    let y = rem / (patch * 3);
    let j = rem % (patch * 3);
    let grid_y = k / grid_w;
    let grid_x = k % grid_w;
    ((grid_y * patch + y) * width + grid_x * patch) * 3 + j
}

/// Every packed value of a grid of `grid_h` by `grid_w` patches reads inside
/// an image of `height` by `width` RGB pixels that holds the grid.
proof fn lemma_packed_source_bounds(o: int, patch: int, grid_h: int, grid_w: int, height: int, width: int)
    requires
        patch > 0,
        grid_h >= 0,
        grid_w >= 0,
        grid_h * patch <= height,
        grid_w * patch <= width,
        0 <= o < grid_h * grid_w * (patch * patch * 3),
    ensures
        grid_w > 0,
        0 <= (o / (patch * patch * 3)) / grid_w * patch + (o % (patch * patch * 3)) / (patch * 3) < height,
        0 <= (o / (patch * patch * 3)) % grid_w * patch * 3 + (o % (patch * patch * 3)) % (patch * 3) < width * 3,
        0 <= siglip2_packed_source(o, patch, grid_w, width) < height * width * 3,
{
    let depth = patch * patch * 3;
    let row_len = patch * 3;
    assert(depth > 0 && row_len > 0) by (nonlinear_arith)
        requires
            patch > 0,
            depth == patch * patch * 3,
            row_len == patch * 3,
    ;
    if grid_w == 0 {
        assert(grid_h * grid_w * depth == 0) by (nonlinear_arith)
            requires
                grid_w == 0,
        ;
        assert(false);
    }
    let k = o / depth;
    let rem = o % depth;
    lemma_split(o, depth);
    assert(o < (grid_h * grid_w) * depth) by (nonlinear_arith)
        requires
            o < grid_h * grid_w * depth,
    ;
    lemma_quotient_below(o, depth, grid_h * grid_w);
    let y = rem / row_len;
    let j = rem % row_len;
    lemma_split(rem, row_len);
    assert(rem < patch * row_len) by (nonlinear_arith)
        requires
            rem < depth,
            depth == patch * patch * 3,
            row_len == patch * 3,
    ;
    lemma_quotient_below(rem, row_len, patch);
    let grid_y = k / grid_w;
    let grid_x = k % grid_w;
    lemma_split(k, grid_w);
    assert(k < grid_h * grid_w);
    lemma_quotient_below(k, grid_w, grid_h);
    let a = grid_y * patch + y;
    let b = grid_x * patch * 3 + j;
    assert(0 <= a < height) by (nonlinear_arith)
        requires
            0 <= grid_y < grid_h,
            0 <= y < patch,
            a == grid_y * patch + y,
            grid_h * patch <= height,
    ;
    assert(0 <= b < width * 3) by (nonlinear_arith)
        requires
            0 <= grid_x < grid_w,
            0 <= j < patch * 3,
            b == grid_x * patch * 3 + j,
            grid_w * patch <= width,
    ;
    assert(siglip2_packed_source(o, patch, grid_w, width) == (a * width + grid_x * patch) * 3 + j);
    assert(0 <= (a * width + grid_x * patch) * 3 + j < height * width * 3) by (nonlinear_arith)
        requires
            0 <= a < height,
            0 <= b < width * 3,
            b == grid_x * patch * 3 + j,
            0 <= grid_x,
            patch > 0,
            0 <= j,
    ;
}

impl Siglip2ImageProcessor {
    #[verifier::type_invariant]
    closed spec fn well_formed(self) -> bool {
        siglip2_geometry_valid(self.patch_size as int, self.max_num_patches as int)
    }

    /// Patch edge in pixels.
    pub closed spec fn spec_patch_size(self) -> usize {
        self.patch_size
    }

    /// Maximum number of patches per image.
    pub closed spec fn spec_max_num_patches(self) -> usize {
        self.max_num_patches
    }

    /// Creates a processor for `patch_size` pixel patches and a budget of
    /// `max_num_patches` patches; rejects the settings that
    /// [`siglip2_geometry_valid`] does not accept.
    pub fn new(patch_size: usize, max_num_patches: usize) -> (r: Result<Siglip2ImageProcessor, Siglip2Error>)
        ensures
            siglip2_geometry_valid(patch_size as int, max_num_patches as int) ==> (r matches Ok(p)
                && p.spec_patch_size() == patch_size && p.spec_max_num_patches() == max_num_patches),
            !siglip2_geometry_valid(patch_size as int, max_num_patches as int) ==> (r matches Err(
                Siglip2Error::InvalidGeometry,
            )),
    {
        if patch_size == 0 || max_num_patches == 0 || patch_size > u32::MAX as usize || max_num_patches
            > u32::MAX as usize {
            return Err(Siglip2Error::InvalidGeometry);
        }
        let ghost p = patch_size as int;
        let ghost m = max_num_patches as int;
        proof {
            assert(p * p * 3 * m * 4 >= p * p * 3 * m && p * p * 3 * m >= p * p * 3 && p * p * 3
                >= p * p) by (nonlinear_arith)
                requires
                    p > 0,
                    m > 0,
            ;
        }
        let square = match patch_size.checked_mul(patch_size) {
            Some(v) => v,
            None => return Err(Siglip2Error::InvalidGeometry),
        };
        let rgb = match square.checked_mul(3) {
            Some(v) => v,
            None => return Err(Siglip2Error::InvalidGeometry),
        };
        let values = match rgb.checked_mul(max_num_patches) {
            Some(v) => v,
            None => return Err(Siglip2Error::InvalidGeometry),
        };
        match values.checked_mul(4) {
            Some(_) => Ok(Siglip2ImageProcessor { patch_size, max_num_patches }),
            None => Err(Siglip2Error::InvalidGeometry),
        }
    }

    /// Patch edge in pixels.
    pub fn patch_size(&self) -> (r: usize)
        ensures
            r == self.spec_patch_size(),
    {
        self.patch_size
    }

    /// Maximum number of patches per image.
    pub fn max_num_patches(&self) -> (r: usize)
        ensures
            r == self.spec_max_num_patches(),
    {
        self.max_num_patches
    }

    /// Packs the interleaved RGB values of a resized image into the fixed
    /// patch buffer: the image's full patches in row-major grid order, each
    /// patch by rows, columns and channels, then `fill` up to the budget; the
    /// attention mask holds one for each real patch and zero for padding; the
    /// grid is the number of full patches down and across.
    pub fn pack_patches<T: Copy>(&self, pixels: &[T], resized: ImageSize, fill: T) -> (r: (Vec<T>, Vec<i64>, [usize; 2]))
        requires
            pixels@.len() == resized.height * resized.width * 3,
            (resized.height / self.spec_patch_size()) * (resized.width / self.spec_patch_size())
                <= self.spec_max_num_patches(),
        ensures
            ({
                let p = self.spec_patch_size() as int;
                let grid_h = resized.height / self.spec_patch_size();
                let grid_w = resized.width / self.spec_patch_size();
                let depth = p * p * 3;
                let packed = grid_h * grid_w * depth;
                &&& r.0@.len() == self.spec_max_num_patches() * depth
                &&& forall|o: int|
                    0 <= o < packed ==> #[trigger] r.0@[o] == pixels@[siglip2_packed_source(
                        o,
                        p,
                        grid_w as int,
                        resized.width as int,
                    )]
                &&& forall|o: int| packed <= o < r.0@.len() ==> #[trigger] r.0@[o] == fill
                &&& r.1@.len() == self.spec_max_num_patches()
                &&& forall|i: int|
                    0 <= i < r.1@.len() ==> #[trigger] r.1@[i] == (if i < grid_h * grid_w {
                        1i64
                    } else {
                        0i64
                    })
                &&& r.2[0] == grid_h && r.2[1] == grid_w
            }),
    {
        proof {
            use_type_invariant(self);
        }
        let patch = self.patch_size;
        let max = self.max_num_patches;
        let ghost p = patch as int;
        let ghost m = max as int;
        proof {
            assert(0 < p * 3 <= p * p * 3 && p * p * 3 <= p * p * 3 * m && p * p * 3 * m <= p * p * 3 * m
                * 4) by (nonlinear_arith)
                requires
                    p > 0,
                    m > 0,
            ;
        }
        let depth = patch * patch * 3;
        let row_len = patch * 3;
        let grid_h = resized.height / patch;
        let grid_w = resized.width / patch;
        proof {
            assert(grid_h * p <= resized.height && grid_w * p <= resized.width) by (nonlinear_arith)
                requires
                    p > 0,
                    grid_h == resized.height as int / p,
                    grid_w == resized.width as int / p,
            {
                lemma_split(resized.height as int, p);
                lemma_split(resized.width as int, p);
            }
        }
        let count = grid_h * grid_w;
        let total = max * depth;
        proof {
            assert(count * depth <= m * depth && m * depth == p * p * 3 * m) by (nonlinear_arith)
                requires
                    count <= m,
                    depth == p * p * 3,
                    depth > 0,
            ;
            assert(depth > 0);
        }
        let packed = count * depth;
        let mut values: Vec<T> = Vec::new();
        let mut o: usize = 0;
        while o < total
            invariant
                values@.len() == o,
                o <= total,
                total == max * depth,
                packed == count * depth,
                packed <= total,
                count == grid_h * grid_w,
                depth == patch * patch * 3,
                row_len == patch * 3,
                patch == p,
                p > 0,
                grid_h * p <= resized.height,
                grid_w * p <= resized.width,
                pixels@.len() == resized.height * resized.width * 3,
                forall|i: int|
                    0 <= i < packed && i < o ==> #[trigger] values@[i] == pixels@[siglip2_packed_source(
                        i,
                        p,
                        grid_w as int,
                        resized.width as int,
                    )],
                forall|i: int| packed <= i < o ==> #[trigger] values@[i] == fill,
            decreases total - o,
        {
            if o < packed {
                proof {
                    assert(o < grid_h * grid_w * (p * p * 3));
                    lemma_packed_source_bounds(o as int, p, grid_h as int, grid_w as int, resized.height as int, resized.width as int);
                }
                let k = o / depth;
                let rem = o % depth;
                let y = rem / row_len;
                let j = rem % row_len;
                let grid_y = k / grid_w;
                let grid_x = k % grid_w;
                let line = grid_y * patch + y;
                let n = pixels.len();
                proof {
                    let s = (line * resized.width + grid_x * patch) * 3 + j;
                    assert(s == siglip2_packed_source(o as int, p, grid_w as int, resized.width as int));
                    assert(0 <= line * resized.width <= line * resized.width + grid_x * patch <= (line
                        * resized.width + grid_x * patch) * 3 <= s) by (nonlinear_arith)
                        requires
                            line >= 0,
                            resized.width >= 0,
                            grid_x >= 0,
                            patch >= 0,
                            j >= 0,
                            s == (line * resized.width + grid_x * patch) * 3 + j,
                    ;
                    assert(grid_x * patch <= grid_x * patch * 3) by (nonlinear_arith)
                        requires
                            grid_x >= 0,
                            patch >= 0,
                    ;
                }
                let source = (line * resized.width + grid_x * patch) * 3 + j;
                values.push(pixels[source]);
            } else {
                values.push(fill);
            }
            o = o + 1;
        }
        let mut mask: Vec<i64> = Vec::new();
        let mut i: usize = 0;
        while i < max
            invariant
                mask@.len() == i,
                i <= max,
                forall|t: int| 0 <= t < i ==> #[trigger] mask@[t] == (if t < count { 1i64 } else { 0i64 }),
            decreases max - i,
        {
            mask.push(if i < count { 1i64 } else { 0i64 });
            i = i + 1;
        }
        (values, mask, [grid_h, grid_w])
    }
}

} // verus!
