//! Image sizes and the integer geometry shared by processor families.

use vstd::prelude::*;
use vstd::arithmetic::div_mod::lemma_fundamental_div_mod_converse;

use crate::errors::{ImageProcessorError, TensorError, TransformError};

verus! {

/// Height and width of an image in pixels.
#[derive(Clone, Copy, Debug, PartialEq, Eq, Hash, Structural)]
pub struct ImageSize {
    /// Height in pixels.
    pub height: usize,
    /// Width in pixels.
    pub width: usize,
}

/// Whether an image of size `image` fits inside a canvas of size `target`.
pub open spec fn fits_inside(target: ImageSize, image: ImageSize) -> bool {
    image.height <= target.height && image.width <= target.width
}

/// The size checked by [`ImageSize::new`]: both dimensions non-zero.
pub open spec fn spec_image_size_new(height: usize, width: usize) -> Result<ImageSize, TransformError> {
    if height == 0 || width == 0 {
        Err(TransformError::InvalidSize { height, width })
    } else {
        Ok(ImageSize { height, width })
    }
}

impl ImageSize {
    /// Creates a size whose height and width are both non-zero.
    pub fn new(height: usize, width: usize) -> (r: Result<ImageSize, TransformError>)
        ensures
            r == spec_image_size_new(height, width),
    {
        if height == 0 || width == 0 {
            Err(TransformError::InvalidSize { height, width })
        } else {
            Ok(ImageSize { height, width })
        }
    }
}

/// Returns a square size with both dimensions equal to `edge`.
pub fn square_size(edge: usize) -> (r: ImageSize)
    ensures
        r == (ImageSize { height: edge, width: edge }),
{
    ImageSize { height: edge, width: edge }
}

/// The padding check: the image must fit inside the target.
pub open spec fn spec_validate_padding_target(target: ImageSize, image: ImageSize) -> Result<(), ImageProcessorError> {
    if fits_inside(target, image) {
        Ok(())
    } else {
        Err(ImageProcessorError::InvalidPaddingTarget { target_size: target, image_size: image })
    }
}

/// Checks that an image of size `image_size` fits inside the padding target.
pub fn validate_padding_target(target_size: ImageSize, image_size: ImageSize) -> (r: Result<(), ImageProcessorError>)
    ensures
        r == spec_validate_padding_target(target_size, image_size),
{
    if target_size.height < image_size.height || target_size.width < image_size.width {
        return Err(ImageProcessorError::InvalidPaddingTarget { target_size, image_size });
    }
    Ok(())
}

/// The smallest multiple of `factor` that is at least `value`.
pub open spec fn round_up_value(value: int, factor: int) -> int {
    if value % factor == 0 {
        value
    } else {
        value + (factor - value % factor)
    }
}

/// Rounding `value` up to a multiple of `factor`, or the overflow error.
pub open spec fn spec_round_up_to_multiple(value: usize, factor: usize) -> Result<usize, ImageProcessorError> {
    if round_up_value(value as int, factor as int) <= usize::MAX {
        Ok(round_up_value(value as int, factor as int) as usize)
    } else {
        Err(ImageProcessorError::Transform(TransformError::ImageSizeOverflow))
    }
}

/// Rounds `value` up to the next multiple of `factor`.
pub fn round_up_to_multiple(value: usize, factor: usize) -> (r: Result<usize, ImageProcessorError>)
    requires
        factor > 0,
    ensures
        r == spec_round_up_to_multiple(value, factor),
{
    let remainder = value % factor;
    if remainder == 0 {
        return Ok(value);
    }
    match value.checked_add(factor - remainder) {
        Some(v) => Ok(v),
        None => Err(ImageProcessorError::Transform(TransformError::ImageSizeOverflow)),
    }
}

/// Rounding both dimensions of `size` up to multiples of `factor`.
pub open spec fn spec_round_up_size_to_multiple(size: ImageSize, factor: usize) -> Result<ImageSize, ImageProcessorError> {
    if factor == 0 {
        Err(ImageProcessorError::Transform(TransformError::InvalidScaleFactor(factor)))
    } else {
        match spec_round_up_to_multiple(size.height, factor) {
            Err(e) => Err(e),
            Ok(height) => match spec_round_up_to_multiple(size.width, factor) {
                Err(e) => Err(e),
                Ok(width) => Ok(ImageSize { height, width }),
            },
        }
    }
}

/// Rounds both dimensions of `size` up to multiples of `factor`.
pub fn round_up_size_to_multiple(size: ImageSize, factor: usize) -> (r: Result<ImageSize, ImageProcessorError>)
    ensures
        r == spec_round_up_size_to_multiple(size, factor),
{
    if factor == 0 {
        return Err(ImageProcessorError::Transform(TransformError::InvalidScaleFactor(factor)));
    }
    let height = match round_up_to_multiple(size.height, factor) {
        Ok(h) => h,
        Err(e) => return Err(e),
    };
    let width = match round_up_to_multiple(size.width, factor) {
        Ok(w) => w,
        Err(e) => return Err(e),
    };
    Ok(ImageSize { height, width })
}

/// Rounding up returns a multiple of the factor that is at least the value and less than
/// the value plus the factor.
pub proof fn round_up_is_least_multiple(value: usize, factor: usize)
    requires
        factor > 0,
    ensures
        round_up_value(value as int, factor as int) % (factor as int) == 0,
        value <= round_up_value(value as int, factor as int) < value + factor,
{
    let v = value as int;
    let f = factor as int;
    let q = v / f;
    let m = v % f;
    assert(v == f * q + m) by (nonlinear_arith)
        requires f > 0, q == v / f, m == v % f;
    if m != 0 {
        assert(round_up_value(v, f) == (q + 1) * f) by (nonlinear_arith)
            requires v == f * q + m, round_up_value(v, f) == v + (f - m);
        lemma_fundamental_div_mod_converse(round_up_value(v, f), f, q + 1, 0);
    }
}

/// The component-wise maximum of a non-empty list of sizes.
pub open spec fn max_extent(sizes: Seq<ImageSize>) -> ImageSize
    decreases sizes.len(),
{
    if sizes.len() <= 1 {
        sizes[0]
    } else {
        let rest = max_extent(sizes.drop_last());
        let last = sizes.last();
        ImageSize {
            height: if rest.height >= last.height { rest.height } else { last.height },
            width: if rest.width >= last.width { rest.width } else { last.width },
        }
    }
}

/// The first padding failure among `sizes`, checked in order.
pub open spec fn spec_validate_padding_targets(target: ImageSize, sizes: Seq<ImageSize>) -> Result<(), ImageProcessorError>
    decreases sizes.len(),
{
    if sizes.len() == 0 {
        Ok(())
    } else {
        match spec_validate_padding_targets(target, sizes.drop_last()) {
            Err(e) => Err(e),
            Ok(()) => spec_validate_padding_target(target, sizes.last()),
        }
    }
}

/// Every size passes the padding check exactly when all of them fit.
pub proof fn validate_padding_targets_ok_iff_all_fit(target: ImageSize, sizes: Seq<ImageSize>)
    ensures
        spec_validate_padding_targets(target, sizes) is Ok <==> forall|i: int|
            0 <= i < sizes.len() ==> fits_inside(target, #[trigger] sizes[i]),
    decreases sizes.len(),
{
    if sizes.len() > 0 {
        validate_padding_targets_ok_iff_all_fit(target, sizes.drop_last());
        if spec_validate_padding_targets(target, sizes) is Ok {
            assert forall|i: int| 0 <= i < sizes.len() implies fits_inside(target, #[trigger] sizes[i]) by {
                if i < sizes.len() - 1 {
                    assert(sizes.drop_last()[i] == sizes[i]);
                }
            }
        } else {
            if spec_validate_padding_targets(target, sizes.drop_last()) is Err {
                let i = choose|i: int| 0 <= i < sizes.len() - 1 && !fits_inside(target, #[trigger] sizes.drop_last()[i]);
                assert(sizes.drop_last()[i] == sizes[i]);
            }
        }
    }
}

/// Checks every size against the padding target, in order.
pub fn validate_padding_targets(target: ImageSize, sizes: &[ImageSize]) -> (r: Result<(), ImageProcessorError>)
    ensures
        r == spec_validate_padding_targets(target, sizes@),
{
    let mut i: usize = 0;
    while i < sizes.len()
        invariant
            i <= sizes@.len(),
            spec_validate_padding_targets(target, sizes@.take(i as int)) is Ok,
        decreases sizes@.len() - i,
    {
        assert(sizes@.take(i + 1).drop_last() =~= sizes@.take(i as int));
        match validate_padding_target(target, sizes[i]) {
            Ok(()) => {},
            Err(e) => {
                proof {
                    lemma_padding_check_stops(target, sizes@, i as int);
                }
                return Err(e);
            },
        }
        i = i + 1;
    }
    assert(sizes@.take(i as int) =~= sizes@);
    Ok(())
}

/// Once a prefix passes and the next size fails, the whole list fails with that error.
proof fn lemma_padding_check_stops(target: ImageSize, sizes: Seq<ImageSize>, i: int)
    requires
        0 <= i < sizes.len(),
        spec_validate_padding_targets(target, sizes.take(i)) is Ok,
        !fits_inside(target, sizes[i]),
    ensures
        spec_validate_padding_targets(target, sizes) == spec_validate_padding_target(target, sizes[i]),
    decreases sizes.len(),
{
    if i == sizes.len() - 1 {
        assert(sizes.drop_last() =~= sizes.take(i));
    } else {
        assert(sizes.drop_last().take(i) =~= sizes.take(i));
        lemma_padding_check_stops(target, sizes.drop_last(), i);
    }
}

/// The padding target chosen for a batch: the requested size, or the largest height and
/// width in the batch, optionally rounded up to a multiple, checked against every size.
pub open spec fn spec_padded_batch_target_for_sizes(
    sizes: Seq<ImageSize>,
    requested_target: Option<ImageSize>,
    pad_to_multiple: Option<usize>,
) -> Result<ImageSize, ImageProcessorError> {
    if sizes.len() == 0 {
        Err(ImageProcessorError::EmptyBatch)
    } else {
        let base = match requested_target {
            Some(t) => t,
            None => max_extent(sizes),
        };
        let rounded = match pad_to_multiple {
            Some(m) => spec_round_up_size_to_multiple(base, m),
            None => Ok(base),
        };
        match rounded {
            Err(e) => Err(e),
            Ok(target) => match spec_validate_padding_targets(target, sizes) {
                Err(e) => Err(e),
                Ok(()) => Ok(target),
            },
        }
    }
}

/// Chooses the canvas that a batch of images is padded to.
pub fn padded_batch_target_for_sizes(
    sizes: &[ImageSize],
    requested_target: Option<ImageSize>,
    pad_to_multiple: Option<usize>,
) -> (r: Result<ImageSize, ImageProcessorError>)
    ensures
        r == spec_padded_batch_target_for_sizes(sizes@, requested_target, pad_to_multiple),
{
    if sizes.len() == 0 {
        return Err(ImageProcessorError::EmptyBatch);
    }
    let mut target = match requested_target {
        Some(t) => t,
        None => {
            let mut acc = sizes[0];
            let mut i: usize = 1;
            assert(sizes@.take(1) =~= seq![sizes@[0]]);
            while i < sizes.len()
                invariant
                    1 <= i <= sizes@.len(),
                    acc == max_extent(sizes@.take(i as int)),
                decreases sizes@.len() - i,
            {
                assert(sizes@.take(i + 1).drop_last() =~= sizes@.take(i as int));
                let size = sizes[i];
                acc = ImageSize {
                    height: if acc.height >= size.height { acc.height } else { size.height },
                    width: if acc.width >= size.width { acc.width } else { size.width },
                };
                i = i + 1;
            }
            assert(sizes@.take(i as int) =~= sizes@);
            acc
        },
    };
    if let Some(multiple) = pad_to_multiple {
        target = match round_up_size_to_multiple(target, multiple) {
            Ok(t) => t,
            Err(e) => return Err(e),
        };
    }
    match validate_padding_targets(target, sizes) {
        Ok(()) => Ok(target),
        Err(e) => Err(e),
    }
}

/// A successful padding target holds every image of the batch.
pub proof fn padded_batch_target_holds_every_image(
    sizes: Seq<ImageSize>,
    requested_target: Option<ImageSize>,
    pad_to_multiple: Option<usize>,
)
    requires
        spec_padded_batch_target_for_sizes(sizes, requested_target, pad_to_multiple) is Ok,
    ensures
        forall|i: int| 0 <= i < sizes.len() ==> fits_inside(
            spec_padded_batch_target_for_sizes(sizes, requested_target, pad_to_multiple)->Ok_0,
            #[trigger] sizes[i],
        ),
{
    let target = spec_padded_batch_target_for_sizes(sizes, requested_target, pad_to_multiple)->Ok_0;
    validate_padding_targets_ok_iff_all_fit(target, sizes);
}

/// The component-wise maximum holds every size, and its height and its width are each the
/// height or the width of some size of the list.
proof fn lemma_max_extent_is_least(sizes: Seq<ImageSize>)
    requires
        sizes.len() > 0,
    ensures
        forall|i: int| 0 <= i < sizes.len() ==> fits_inside(max_extent(sizes), #[trigger] sizes[i]),
        exists|i: int| 0 <= i < sizes.len() && (#[trigger] sizes[i]).height == max_extent(sizes).height,
        exists|j: int| 0 <= j < sizes.len() && (#[trigger] sizes[j]).width == max_extent(sizes).width,
    decreases sizes.len(),
{
    if sizes.len() == 1 {
        assert(sizes[0].height == max_extent(sizes).height);
        assert(sizes[0].width == max_extent(sizes).width);
    } else {
        let rest = sizes.drop_last();
        let n = sizes.len() - 1;
        lemma_max_extent_is_least(rest);
        assert forall|i: int| 0 <= i < sizes.len() implies fits_inside(max_extent(sizes), #[trigger] sizes[i]) by {
            if i < n {
                assert(rest[i] == sizes[i]);
                assert(fits_inside(max_extent(rest), rest[i]));
            }
        }
        let hi = choose|i: int| 0 <= i < rest.len() && (#[trigger] rest[i]).height == max_extent(rest).height;
        let wj = choose|j: int| 0 <= j < rest.len() && (#[trigger] rest[j]).width == max_extent(rest).width;
        assert(rest[hi] == sizes[hi]);
        assert(rest[wj] == sizes[wj]);
        if max_extent(rest).height >= sizes[n].height {
            assert(sizes[hi].height == max_extent(sizes).height);
        } else {
            assert(sizes[n].height == max_extent(sizes).height);
        }
        if max_extent(rest).width >= sizes[n].width {
            assert(sizes[wj].width == max_extent(sizes).width);
        } else {
            assert(sizes[n].width == max_extent(sizes).width);
        }
    }
}

/// Without a requested target or a multiple, a non-empty batch is always padded, and to
/// the least canvas that holds it: every image fits, the canvas height is the height of
/// some image and the canvas width the width of some image.
pub proof fn padded_batch_target_is_least_canvas(sizes: Seq<ImageSize>)
    requires
        sizes.len() > 0,
    ensures
        spec_padded_batch_target_for_sizes(sizes, None, None) is Ok,
        ({
            let t = spec_padded_batch_target_for_sizes(sizes, None, None)->Ok_0;
            &&& forall|i: int| 0 <= i < sizes.len() ==> fits_inside(t, #[trigger] sizes[i])
            &&& exists|i: int| 0 <= i < sizes.len() && (#[trigger] sizes[i]).height == t.height
            &&& exists|j: int| 0 <= j < sizes.len() && (#[trigger] sizes[j]).width == t.width
        }),
{
    lemma_max_extent_is_least(sizes);
    validate_padding_targets_ok_iff_all_fit(max_extent(sizes), sizes);
}

/// With a multiple and no requested target, a successful canvas has both dimensions
/// divisible by the multiple, holds every image, and exceeds the tallest image by less
/// than the multiple in height and the widest by less than the multiple in width.
pub proof fn padded_batch_target_rounds_the_least_canvas(sizes: Seq<ImageSize>, multiple: usize)
    requires
        sizes.len() > 0,
        multiple > 0,
        spec_padded_batch_target_for_sizes(sizes, None, Some(multiple)) is Ok,
    ensures
        ({
            let t = spec_padded_batch_target_for_sizes(sizes, None, Some(multiple))->Ok_0;
            &&& t.height % multiple == 0
            &&& t.width % multiple == 0
            &&& forall|i: int| 0 <= i < sizes.len() ==> fits_inside(t, #[trigger] sizes[i])
            &&& exists|i: int| 0 <= i < sizes.len() && t.height < (#[trigger] sizes[i]).height + multiple
            &&& exists|j: int| 0 <= j < sizes.len() && t.width < (#[trigger] sizes[j]).width + multiple
        }),
{
    let m = max_extent(sizes);
    lemma_max_extent_is_least(sizes);
    round_up_is_least_multiple(m.height, multiple);
    round_up_is_least_multiple(m.width, multiple);
    padded_batch_target_holds_every_image(sizes, None, Some(multiple));
}

/// A requested target that holds every image is used as it is when no multiple is given.
pub proof fn padded_batch_target_keeps_a_fitting_request(sizes: Seq<ImageSize>, target: ImageSize)
    requires
        sizes.len() > 0,
        forall|i: int| 0 <= i < sizes.len() ==> fits_inside(target, #[trigger] sizes[i]),
    ensures
        spec_padded_batch_target_for_sizes(sizes, Some(target), None) == Ok::<ImageSize, ImageProcessorError>(target),
{
    validate_padding_targets_ok_iff_all_fit(target, sizes);
}

/// The element-count overflow error of a tensor shape.
pub open spec fn shape_overflow() -> ImageProcessorError {
    ImageProcessorError::Tensor(TensorError::ShapeElementCountOverflow)
}

/// Multiplies two shape factors, failing on overflow.
pub fn checked_spatial_pad_mul(left: usize, right: usize) -> (r: Result<usize, ImageProcessorError>)
    ensures
        left * right <= usize::MAX ==> r == Ok::<usize, ImageProcessorError>((left * right) as usize),
        left * right > usize::MAX ==> r == Err::<usize, ImageProcessorError>(shape_overflow()),
{
    match left.checked_mul(right) {
        Some(v) => Ok(v),
        None => Err(ImageProcessorError::Tensor(TensorError::ShapeElementCountOverflow)),
    }
}

/// The mask value at flat position `k` of an `[items, 1, height, width]` mask: one inside
/// the valid region of item `k / (height * width)`, zero in its padding.
pub open spec fn mask_value_at(sizes: Seq<ImageSize>, target: ImageSize, k: int) -> u8 {
    let plane = target.height * target.width;
    let item = k / plane;
    let row = (k % plane) / (target.width as int);
    let column = (k % plane) % (target.width as int);
    if row < sizes[item].height && column < sizes[item].width {
        1
    } else {
        0
    }
}

/// Whether the element count `items * height * width` of a mask overflows.
pub open spec fn mask_overflows(items: int, target: ImageSize) -> bool {
    items * target.height > usize::MAX || items * target.height * target.width > usize::MAX
}

/// Builds the row-major values of an `[items, 1, height, width]` pixel mask: one where
/// a pixel lies inside the item's own size, zero in its padding.
pub fn pixel_mask_for_valid_sizes(sizes: &[ImageSize], target: ImageSize) -> (r: Result<Vec<u8>, ImageProcessorError>)
    ensures
        mask_overflows(sizes@.len() as int, target) ==> r == Err::<Vec<u8>, ImageProcessorError>(shape_overflow()),
        !mask_overflows(sizes@.len() as int, target) ==> match spec_validate_padding_targets(target, sizes@) {
            Err(e) => r == Err::<Vec<u8>, ImageProcessorError>(e),
            Ok(()) => r is Ok,
        },
        r matches Ok(values) ==> {
            &&& values@.len() == sizes@.len() * target.height * target.width
            &&& forall|k: int| 0 <= k < values@.len() ==> values@[k] == mask_value_at(sizes@, target, k)
        },
{
    let items = sizes.len();
    let elements = match items.checked_mul(target.height) {
        Some(v) => match v.checked_mul(target.width) {
            Some(e) => e,
            None => return Err(ImageProcessorError::Tensor(TensorError::ShapeElementCountOverflow)),
        },
        None => {
            assert(items * target.height * target.width >= items * target.height || target.width == 0) by (nonlinear_arith);
            return Err(ImageProcessorError::Tensor(TensorError::ShapeElementCountOverflow));
        },
    };
    let height = target.height;
    let width = target.width;
    let ghost plane: int = height * width;
    let mut values: Vec<u8> = Vec::new();
    let mut i: usize = 0;
    while i < items
        invariant
            items == sizes@.len(),
            height == target.height,
            width == target.width,
            plane == height * width,
            elements == items * height * width,
            !mask_overflows(items as int, target),
            i <= items,
            values@.len() == i * plane,
            spec_validate_padding_targets(target, sizes@.take(i as int)) is Ok,
            forall|k: int| 0 <= k < values@.len() ==> values@[k] == mask_value_at(sizes@, target, k),
        decreases items - i,
    {
        let size = sizes[i];
        assert(sizes@.take(i + 1).drop_last() =~= sizes@.take(i as int));
        match validate_padding_target(target, size) {
            Ok(()) => {},
            Err(e) => {
                proof {
                    lemma_padding_check_stops(target, sizes@, i as int);
                }
                return Err(e);
            },
        }
        let mut row: usize = 0;
        while row < height
            invariant
                items == sizes@.len(),
                height == target.height,
                width == target.width,
                plane == height * width,
                i < items,
                size == sizes@[i as int],
                row <= height,
                values@.len() == i * plane + row * width,
                forall|k: int| 0 <= k < values@.len() ==> values@[k] == mask_value_at(sizes@, target, k),
            decreases height - row,
        {
            let mut column: usize = 0;
            while column < width
                invariant
                    items == sizes@.len(),
                    height == target.height,
                    width == target.width,
                    plane == height * width,
                    i < items,
                    size == sizes@[i as int],
                    row < height,
                    column <= width,
                    values@.len() == i * plane + row * width + column,
                    forall|k: int| 0 <= k < values@.len() ==> values@[k] == mask_value_at(sizes@, target, k),
                decreases width - column,
            {
                let value: u8 = if row < size.height && column < size.width { 1 } else { 0 };
                proof {
                    let k = values@.len() as int;
                    let inner = row * width + column;
                    assert(0 <= inner < plane) by (nonlinear_arith)
                        requires
                            inner == row * width + column,
                            row < height,
                            column < width,
                            plane == height * width,
                            row >= 0,
                            column >= 0;
                    assert(k == i * plane + inner);
                    lemma_fundamental_div_mod_converse(k, plane, i as int, inner);
                    lemma_fundamental_div_mod_converse(inner, width as int, row as int, column as int);
                }
                values.push(value);
                column = column + 1;
            }
            proof {
                assert((row + 1) * width == row * width + width) by (nonlinear_arith);
            }
            row = row + 1;
        }
        proof {
            assert((i + 1) * plane == i * plane + height * width) by (nonlinear_arith)
                requires plane == height * width;
        }
        i = i + 1;
    }
    proof {
        assert(sizes@.take(items as int) =~= sizes@);
        assert(items * plane == items * height * width) by (nonlinear_arith)
            requires plane == height * width;
    }
    Ok(values)
}

/// The mask of a batch that needs no padding: every one of `items * height * width`
/// values is one.
pub fn full_pixel_mask_values(items: usize, height: usize, width: usize) -> (r: Result<Vec<u8>, ImageProcessorError>)
    ensures
        mask_overflows(items as int, ImageSize { height, width }) ==> r == Err::<Vec<u8>, ImageProcessorError>(shape_overflow()),
        !mask_overflows(items as int, ImageSize { height, width }) ==> (r matches Ok(v) && v@.len() == items * height * width
            && forall|k: int| 0 <= k < v@.len() ==> v@[k] == 1u8),
{
    let elements = match items.checked_mul(height) {
        Some(v) => match v.checked_mul(width) {
            Some(e) => e,
            None => return Err(ImageProcessorError::Tensor(TensorError::ShapeElementCountOverflow)),
        },
        None => return Err(ImageProcessorError::Tensor(TensorError::ShapeElementCountOverflow)),
    };
    let mut values: Vec<u8> = Vec::new();
    let mut k: usize = 0;
    while k < elements
        invariant
            k <= elements,
            values@.len() == k,
            forall|j: int| 0 <= j < values@.len() ==> values@[j] == 1u8,
        decreases elements - k,
    {
        values.push(1);
        k = k + 1;
    }
    Ok(values)
}


/// Builds the values of an `[items, 1, height, width]` pixel mask for an unpadded batch:
/// every pixel is valid.
pub fn full_pixel_mask(items: usize, height: usize, width: usize) -> (r: Result<Vec<u8>, ImageProcessorError>)
    ensures
        items * height > usize::MAX || items * height * width > usize::MAX ==> r == Err::<Vec<u8>, ImageProcessorError>(shape_overflow()),
        items * height <= usize::MAX && items * height * width <= usize::MAX ==> (r matches Ok(values) && {
            &&& values@.len() == items * height * width
            &&& forall|k: int| 0 <= k < values@.len() ==> values@[k] == 1u8
        }),
{
    let elements = match items.checked_mul(height) {
        Some(v) => match v.checked_mul(width) {
            Some(e) => e,
            None => return Err(ImageProcessorError::Tensor(TensorError::ShapeElementCountOverflow)),
        },
        None => {
            assert(items * height * width >= items * height || width == 0) by (nonlinear_arith);
            if width == 0 {
                assert(items * height * width == 0) by (nonlinear_arith) requires width == 0;
            }
            return Err(ImageProcessorError::Tensor(TensorError::ShapeElementCountOverflow));
        },
    };
    let mut values: Vec<u8> = Vec::new();
    let mut k: usize = 0;
    while k < elements
        invariant
            k <= elements,
            values@.len() == k,
            forall|j: int| 0 <= j < k ==> values@[j] == 1u8,
        decreases elements - k,
    {
        values.push(1u8);
        k = k + 1;
    }
    Ok(values)
}
} // verus!
