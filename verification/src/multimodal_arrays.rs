//! Validated arbitrary-rank arrays returned by the multimodal processors, and
//! the reversal of their RGB channel order.

use vstd::prelude::*;

use crate::indexing::{lemma_quotient_below, lemma_split};
use crate::multimodal_presets::{MultimodalProcessorError, MultimodalResizeBackend, COMPACT_EDGE};
use crate::text::str_equal;

verus! {

/// Owned values of an arbitrary-rank multimodal array; 32-bit floats are held
/// as their IEEE-754 bit patterns.
#[non_exhaustive]
#[derive(Clone, Debug, PartialEq)]
pub enum MultimodalArrayData {
    /// 32-bit floating-point values, as bit patterns.
    F32(Vec<u32>),
    /// Unsigned 8-bit values.
    U8(Vec<u8>),
    /// Signed 32-bit integer values.
    I32(Vec<i32>),
    /// Signed 64-bit integer values.
    I64(Vec<i64>),
    /// Boolean values stored as canonical zero-or-one bytes.
    Bool(Vec<u8>),
}

impl MultimodalArrayData {
    /// Number of values.
    pub open spec fn spec_len(&self) -> nat {
        match self {
            MultimodalArrayData::F32(values) => values@.len(),
            MultimodalArrayData::U8(values) => values@.len(),
            MultimodalArrayData::I32(values) => values@.len(),
            MultimodalArrayData::I64(values) => values@.len(),
            MultimodalArrayData::Bool(values) => values@.len(),
        }
    }

    /// Takes the values of a 32-bit float payload; any other payload is an
    /// unexpected dtype.
    pub fn into_f32(self) -> (r: Result<Vec<u32>, MultimodalProcessorError>)
        ensures
            match self {
                MultimodalArrayData::F32(values) => r matches Ok(v) && v@ == values@,
                _ => r == Err::<Vec<u32>, MultimodalProcessorError>(MultimodalProcessorError::UnexpectedTensorDtype),
            },
    {
        match self {
            MultimodalArrayData::F32(values) => Ok(values),
            _ => Err(MultimodalProcessorError::UnexpectedTensorDtype),
        }
    }

    fn len(&self) -> (r: usize)
        ensures
            r == self.spec_len(),
    {
        match self {
            MultimodalArrayData::F32(values) => values.len(),
            MultimodalArrayData::U8(values) => values.len(),
            MultimodalArrayData::I32(values) => values.len(),
            MultimodalArrayData::I64(values) => values.len(),
            MultimodalArrayData::Bool(values) => values.len(),
        }
    }
}

/// Number of elements of an array of shape `shape`.
pub open spec fn shape_product(shape: Seq<usize>) -> int
    decreases shape.len(),
{
    if shape.len() == 0 {
        1
    } else {
        shape_product(shape.drop_last()) * shape.last()
    }
}

/// Whether some dimension of `shape` is zero.
pub open spec fn has_zero_dimension(shape: Seq<usize>) -> bool {
    exists|i: int| 0 <= i < shape.len() && shape[i] == 0
}

/// A shape without zero dimensions has a positive element count.
proof fn lemma_product_positive(shape: Seq<usize>)
    requires
        !has_zero_dimension(shape),
    ensures
        shape_product(shape) >= 1,
    decreases shape.len(),
{
    if shape.len() > 0 {
        assert(!has_zero_dimension(shape.drop_last())) by {
            if has_zero_dimension(shape.drop_last()) {
                let i = choose|i: int| 0 <= i < shape.drop_last().len() && shape.drop_last()[i] == 0;
                assert(shape[i] == 0);
            }
        }
        lemma_product_positive(shape.drop_last());
        assert(shape.last() >= 1) by {
            assert(shape[shape.len() - 1] != 0);
        }
        let a = shape_product(shape.drop_last());
        let b = shape.last() as int;
        assert(a * b >= 1) by (nonlinear_arith)
            requires
                a >= 1,
                b >= 1,
        ;
    }
}

/// Without zero dimensions, a longer prefix of a shape has at least the
/// element count of a shorter one.
proof fn lemma_prefix_product(shape: Seq<usize>, i: int, j: int)
    requires
        0 <= i <= j <= shape.len(),
        !has_zero_dimension(shape),
    ensures
        1 <= shape_product(shape.subrange(0, i)) <= shape_product(shape.subrange(0, j)),
    decreases j - i,
{
    assert(!has_zero_dimension(shape.subrange(0, i))) by {
        if has_zero_dimension(shape.subrange(0, i)) {
            let k = choose|k: int| 0 <= k < shape.subrange(0, i).len() && shape.subrange(0, i)[k] == 0;
            assert(shape[k] == 0);
        }
    }
    lemma_product_positive(shape.subrange(0, i));
    if i < j {
        lemma_prefix_product(shape, i, j - 1);
        assert(shape.subrange(0, j).drop_last() =~= shape.subrange(0, j - 1));
        let a = shape_product(shape.subrange(0, j - 1));
        let b = shape[j - 1] as int;
        assert(b >= 1) by {
            assert(shape[j - 1] != 0);
        }
        assert(a * b >= a) by (nonlinear_arith)
            requires
                a >= 1,
                b >= 1,
        ;
    }
}

/// Arbitrary-rank array; [`MultimodalArray::new`] validates it.
#[derive(Clone, Debug, PartialEq)]
pub struct MultimodalArray {
    shape: Vec<usize>,
    data: MultimodalArrayData,
}

impl MultimodalArray {
    /// Whether no dimension is zero and the value count is the product of
    /// the dimensions.
    pub open spec fn wf(&self) -> bool {
        &&& !has_zero_dimension(self.spec_shape())
        &&& shape_product(self.spec_shape()) == self.spec_data().spec_len()
    }

    /// The array shape.
    pub closed spec fn spec_shape(&self) -> Seq<usize> {
        self.shape@
    }

    /// The array values.
    pub closed spec fn spec_data(&self) -> MultimodalArrayData {
        self.data
    }

    /// Creates an array after validating its element count: a zero dimension
    /// is rejected first, then a shape whose element count overflows `usize`,
    /// then data whose length is not that element count.
    pub fn new(shape: Vec<usize>, data: MultimodalArrayData) -> (r: Result<MultimodalArray, MultimodalProcessorError>)
        ensures
            has_zero_dimension(shape@) ==> r == Err::<MultimodalArray, MultimodalProcessorError>(
                MultimodalProcessorError::ZeroArrayDimension,
            ),
            !has_zero_dimension(shape@) && shape_product(shape@) > usize::MAX ==> r == Err::<
                MultimodalArray,
                MultimodalProcessorError,
            >(MultimodalProcessorError::ShapeOverflow),
            !has_zero_dimension(shape@) && shape_product(shape@) <= usize::MAX && shape_product(shape@)
                != data.spec_len() ==> r == Err::<MultimodalArray, MultimodalProcessorError>(
                MultimodalProcessorError::InvalidArrayLength {
                    expected: shape_product(shape@) as usize,
                    actual: data.spec_len() as usize,
                },
            ),
            !has_zero_dimension(shape@) && shape_product(shape@) == data.spec_len() ==> (r matches Ok(a)
                && a.spec_shape() == shape@ && a.spec_data() == data),
            r matches Ok(a) ==> a.wf(),
    {
        let actual = data.len();
        let mut i: usize = 0;
        while i < shape.len()
            invariant
                i <= shape@.len(),
                forall|k: int| 0 <= k < i ==> shape@[k] != 0,
            decreases shape@.len() - i,
        {
            if shape[i] == 0 {
                return Err(MultimodalProcessorError::ZeroArrayDimension);
            }
            i = i + 1;
        }
        assert(!has_zero_dimension(shape@));
        let mut expected: usize = 1;
        let mut j: usize = 0;
        while j < shape.len()
            invariant
                j <= shape@.len(),
                !has_zero_dimension(shape@),
                expected == shape_product(shape@.subrange(0, j as int)),
                actual == data.spec_len(),
            decreases shape@.len() - j,
        {
            assert(shape@.subrange(0, j + 1).drop_last() =~= shape@.subrange(0, j as int));
            match expected.checked_mul(shape[j]) {
                Some(next) => {
                    expected = next;
                },
                None => {
                    proof {
                        lemma_prefix_product(shape@, j + 1, shape@.len() as int);
                        assert(shape@.subrange(0, shape@.len() as int) =~= shape@);
                    }
                    return Err(MultimodalProcessorError::ShapeOverflow);
                },
            }
            j = j + 1;
        }
        assert(shape@.subrange(0, shape@.len() as int) =~= shape@);
        if expected != actual {
            return Err(MultimodalProcessorError::InvalidArrayLength { expected, actual });
        }
        Ok(MultimodalArray { shape, data })
    }

    /// Returns the array shape.
    pub fn shape(&self) -> (r: &[usize])
        ensures
            r@ == self.spec_shape(),
    {
        self.shape.as_slice()
    }

    /// Returns the array data.
    pub fn data(&self) -> (r: &MultimodalArrayData)
        ensures
            *r == self.spec_data(),
    {
        &self.data
    }
}

/// Index of the value that lands at `k` when the first and last of three
/// consecutive channel planes of `plane` values are exchanged in every sample.
pub open spec fn channel_swapped_source(k: int, plane: int) -> int {
    let channel = (k % (3 * plane)) / plane;
    if channel == 0 {
        k + 2 * plane
    } else if channel == 2 {
        k - 2 * plane
    } else {
        k
    }
}

/// Whether `new` is `old` with the first and last channel planes of every
/// three-channel sample exchanged.
pub open spec fn channels_reversed<T>(old: Seq<T>, new: Seq<T>, plane: int) -> bool {
    &&& new.len() == old.len()
    &&& forall|k: int| 0 <= k < old.len() ==> #[trigger] new[k] == old[channel_swapped_source(k, plane)]
}

/// Whether `new` holds the values of `old`, of the same element type, with
/// their channel order reversed.
pub open spec fn data_channels_reversed(old: MultimodalArrayData, new: MultimodalArrayData, plane: int) -> bool {
    match (old, new) {
        (MultimodalArrayData::F32(a), MultimodalArrayData::F32(b)) => channels_reversed(a@, b@, plane),
        (MultimodalArrayData::U8(a), MultimodalArrayData::U8(b)) => channels_reversed(a@, b@, plane),
        _ => false,
    }
}

/// Every index of an array of `samples` three-channel samples of `plane`
/// values has its exchanged counterpart inside the array.
proof fn lemma_swapped_source_bounds(k: int, plane: int, samples: int)
    requires
        plane > 0,
        0 <= k < samples * (3 * plane),
    ensures
        0 <= channel_swapped_source(k, plane) < samples * (3 * plane),
{
    let stride = 3 * plane;
    lemma_split(k, stride);
    lemma_quotient_below(k, stride, samples);
    let q = k / stride;
    let rem = k % stride;
    lemma_split(rem, plane);
    lemma_quotient_below(rem, plane, 3);
    let channel = rem / plane;
    let m = rem % plane;
    let src = if channel == 0 {
        k + 2 * plane
    } else if channel == 2 {
        k - 2 * plane
    } else {
        k
    };
    assert(channel_swapped_source(k, plane) == src);
    assert(0 <= src < samples * stride) by (nonlinear_arith)
        requires
            k == stride * q + rem,
            rem == plane * channel + m,
            0 <= m < plane,
            0 <= channel < 3,
            0 <= q < samples,
            stride == 3 * plane,
            src == (if channel == 0 {
                k + 2 * plane
            } else if channel == 2 {
                k - 2 * plane
            } else {
                k
            }),
    ;
}

/// Exchanges the first and last channel planes of every sample.
fn swap_channel_planes<T: Copy>(values: &Vec<T>, plane: usize, samples: Ghost<int>) -> (r: Vec<T>)
    requires
        plane > 0,
        samples@ >= 1,
        values@.len() == samples@ * (3 * plane),
    ensures
        channels_reversed(values@, r@, plane as int),
{
    let n = values.len();
    proof {
        assert(plane * 3 <= samples@ * (3 * plane)) by (nonlinear_arith)
            requires
                samples@ >= 1,
                plane > 0,
        ;
    }
    let mut swapped: Vec<T> = Vec::new();
    let stride = plane * 3;
    let mut k: usize = 0;
    while k < values.len()
        invariant
            swapped@.len() == k,
            k <= values@.len(),
            plane > 0,
            stride == 3 * plane,
            values@.len() == samples@ * (3 * plane),
            forall|i: int| 0 <= i < k ==> #[trigger] swapped@[i] == values@[channel_swapped_source(i, plane as int)],
        decreases values@.len() - k,
    {
        proof {
            lemma_swapped_source_bounds(k as int, plane as int, samples@);
        }
        let channel = (k % stride) / plane;
        let source = if channel == 0 {
            k + 2 * plane
        } else if channel == 2 {
            k - 2 * plane
        } else {
            k
        };
        swapped.push(values[source]);
        k = k + 1;
    }
    swapped
}

/// Reverses the RGB channel order of a batch of channel-first images in
/// place: the array must have shape `[batch, 3, height, width]` and hold
/// 32-bit float or byte values; any other array is left unchanged and
/// reported as an unexpected dtype.
pub fn reverse_nchw_channels(array: &mut MultimodalArray) -> (r: Result<(), MultimodalProcessorError>)
    requires
        old(array).wf(),
    ensures
        final(array).wf(),
        r is Ok <==> ({
            let shape = old(array).spec_shape();
            &&& shape.len() == 4
            &&& shape[1] == 3
            &&& (old(array).spec_data() is F32 || old(array).spec_data() is U8)
        }),
        r is Err ==> r == Err::<(), MultimodalProcessorError>(MultimodalProcessorError::UnexpectedTensorDtype)
            && *final(array) == *old(array),
        r is Ok ==> final(array).spec_shape() == old(array).spec_shape() && data_channels_reversed(
            old(array).spec_data(),
            final(array).spec_data(),
            old(array).spec_shape()[2] * old(array).spec_shape()[3],
        ),
{
    let count = array.data.len();
    if array.shape.len() != 4 || array.shape[1] != 3 {
        return Err(MultimodalProcessorError::UnexpectedTensorDtype);
    }
    let batch = array.shape[0];
    let height = array.shape[2];
    let width = array.shape[3];
    let ghost shape = array.shape@;
    proof {
        reveal_with_fuel(shape_product, 5);
        assert(shape.drop_last().drop_last().drop_last().drop_last() =~= Seq::<usize>::empty());
        assert(shape_product(shape) == (((1 * shape[0]) * shape[1]) * shape[2]) * shape[3]);
        assert(shape[0] != 0 && shape[2] != 0 && shape[3] != 0);
        assert((((1 * batch) * 3) * height) * width == batch * (3 * (height * width)) && height * width <= batch
            * (3 * (height * width)) && height * width > 0) by (nonlinear_arith)
            requires
                batch >= 1,
                height >= 1,
                width >= 1,
        ;
    }
    let plane = height * width;
    let ghost samples = batch as int;
    match &array.data {
        MultimodalArrayData::F32(values) => {
            let swapped = swap_channel_planes(values, plane, Ghost(samples));
            array.data = MultimodalArrayData::F32(swapped);
            Ok(())
        },
        MultimodalArrayData::U8(values) => {
            let swapped = swap_channel_planes(values, plane, Ghost(samples));
            array.data = MultimodalArrayData::U8(swapped);
            Ok(())
        },
        _ => Err(MultimodalProcessorError::UnexpectedTensorDtype),
    }
}

/// Whether two array payloads hold the same element type and the same values.
pub open spec fn same_values(a: MultimodalArrayData, b: MultimodalArrayData) -> bool {
    match (a, b) {
        (MultimodalArrayData::F32(x), MultimodalArrayData::F32(y)) => x@ == y@,
        (MultimodalArrayData::U8(x), MultimodalArrayData::U8(y)) => x@ == y@,
        (MultimodalArrayData::I32(x), MultimodalArrayData::I32(y)) => x@ == y@,
        (MultimodalArrayData::I64(x), MultimodalArrayData::I64(y)) => x@ == y@,
        (MultimodalArrayData::Bool(x), MultimodalArrayData::Bool(y)) => x@ == y@,
        _ => false,
    }
}

/// Exchanging the first and last channel planes twice puts every index back.
proof fn lemma_swap_source_involution(k: int, plane: int, samples: int)
    requires
        plane > 0,
        0 <= k < samples * (3 * plane),
    ensures
        channel_swapped_source(channel_swapped_source(k, plane), plane) == k,
{
    let stride = 3 * plane;
    lemma_split(k, stride);
    let q = k / stride;
    let rem = k % stride;
    lemma_split(rem, plane);
    lemma_quotient_below(rem, plane, 3);
    let channel = rem / plane;
    let m = rem % plane;
    let j = channel_swapped_source(k, plane);
    lemma_swapped_source_bounds(k, plane, samples);
    lemma_split(j, stride);
    let rem_j = j % stride;
    lemma_split(rem_j, plane);
    let channel_j = rem_j / plane;
    let q_j = j / stride;
    let m_j = rem_j % plane;
    if channel == 0 {
        assert(j == q * stride + (plane * 2 + m) && 0 <= plane * 2 + m < stride) by (nonlinear_arith)
            requires
                k == stride * q + rem,
                rem == plane * channel + m,
                channel == 0,
                j == k + 2 * plane,
                stride == 3 * plane,
                0 <= m < plane,
        ;
        assert(q_j == q && rem_j == plane * 2 + m) by {
            vstd::arithmetic::div_mod::lemma_fundamental_div_mod_converse(j, stride, q, plane * 2 + m);
        }
        assert(channel_j == 2 && m_j == m) by {
            assert(rem_j == 2 * plane + m);
            vstd::arithmetic::div_mod::lemma_fundamental_div_mod_converse(rem_j, plane, 2, m);
        }
    } else if channel == 2 {
        assert(j == q * stride + m && 0 <= m < stride) by (nonlinear_arith)
            requires
                k == stride * q + rem,
                rem == plane * channel + m,
                channel == 2,
                j == k - 2 * plane,
                stride == 3 * plane,
                0 <= m < plane,
        ;
        assert(q_j == q && rem_j == m) by {
            vstd::arithmetic::div_mod::lemma_fundamental_div_mod_converse(j, stride, q, m);
        }
        assert(channel_j == 0) by {
            vstd::arithmetic::div_mod::lemma_fundamental_div_mod_converse(rem_j, plane, 0, m);
        }
    }
}

/// Reversing the channel order of an array twice gives back its values: if
/// `b` is `a` with its channels reversed and `c` is `b` with its channels
/// reversed, `c` holds the values of `a`.
pub proof fn reversing_channels_twice_restores(a: MultimodalArray, b: MultimodalArray, c: MultimodalArray)
    requires
        a.wf(),
        a.spec_shape().len() == 4,
        a.spec_shape()[1] == 3,
        b.spec_shape() == a.spec_shape(),
        data_channels_reversed(a.spec_data(), b.spec_data(), a.spec_shape()[2] * a.spec_shape()[3]),
        data_channels_reversed(b.spec_data(), c.spec_data(), a.spec_shape()[2] * a.spec_shape()[3]),
    ensures
        same_values(c.spec_data(), a.spec_data()),
{
    let shape = a.spec_shape();
    let plane = shape[2] * shape[3];
    reveal_with_fuel(shape_product, 5);
    assert(shape.drop_last().drop_last().drop_last().drop_last() =~= Seq::<usize>::empty());
    assert(shape[0] != 0 && shape[2] != 0 && shape[3] != 0);
    let samples = shape[0] as int;
    assert(shape_product(shape) == samples * (3 * plane) && plane > 0) by (nonlinear_arith)
        requires
            shape_product(shape) == (((1 * shape[0]) * shape[1]) * shape[2]) * shape[3],
            shape[1] == 3,
            samples == shape[0],
            plane == shape[2] * shape[3],
            shape[2] >= 1,
            shape[3] >= 1,
    ;
    match (a.spec_data(), b.spec_data(), c.spec_data()) {
        (MultimodalArrayData::F32(x), MultimodalArrayData::F32(y), MultimodalArrayData::F32(z)) => {
            assert forall|k: int| 0 <= k < x@.len() implies z@[k] == x@[k] by {
                lemma_swapped_source_bounds(k, plane, samples);
                lemma_swap_source_involution(k, plane, samples);
            }
            assert(z@ =~= x@);
        },
        (MultimodalArrayData::U8(x), MultimodalArrayData::U8(y), MultimodalArrayData::U8(z)) => {
            assert forall|k: int| 0 <= k < x@.len() implies z@[k] == x@[k] by {
                lemma_swapped_source_bounds(k, plane, samples);
                lemma_swap_source_involution(k, plane, samples);
            }
            assert(z@ =~= x@);
        },
        _ => {},
    }
}


/// `1.0` as an `f32` bit pattern.
pub const F32_ONE: u32 = 0x3F80_0000u32;

/// Whether `a` has shape `shape` and holds the 64-bit integers `values`.
pub open spec fn i64_array_is(a: MultimodalArray, shape: Seq<usize>, values: Seq<i64>) -> bool {
    &&& a.spec_shape() == shape
    &&& a.spec_data() matches MultimodalArrayData::I64(v) && v@ == values
}

/// Whether `a` has shape `shape` and holds the 32-bit float bit patterns `values`.
pub open spec fn f32_array_is(a: MultimodalArray, shape: Seq<usize>, values: Seq<u32>) -> bool {
    &&& a.spec_shape() == shape
    &&& a.spec_data() matches MultimodalArrayData::F32(v) && v@ == values
}

/// Whether `a` has shape `shape` and holds `count` true booleans.
pub open spec fn bool_ones_array_is(a: MultimodalArray, shape: Seq<usize>, count: nat) -> bool {
    &&& a.spec_shape() == shape
    &&& a.spec_data() matches MultimodalArrayData::Bool(v) && v@ == Seq::new(count, |k: int| 1u8)
}

/// Whether output `i` of `out` is named `name`.
pub open spec fn output_named(out: Seq<(&'static str, MultimodalArray)>, i: int, name: Seq<char>) -> bool {
    out[i].0@ == name
}

/// The error of assembling the tiled outputs of `class_name`, if any: the classes that
/// re-wrap the pixel values need a 32-bit float payload of exactly the compact size
/// (twice over for LLaVA-OneVision).
pub open spec fn spec_tiled_error(class_name: Seq<char>, pixels: MultimodalArray) -> Option<MultimodalProcessorError> {
    let compact = 3 * COMPACT_EDGE * COMPACT_EDGE;
    if class_name == "AriaImageProcessor"@ || class_name == "Cohere2VisionImageProcessor"@
        || class_name == "GotOcr2ImageProcessor"@ || class_name == "DeepseekOcr2ImageProcessor"@
        || class_name == "Ovis2ImageProcessor"@ || class_name == "Llama4ImageProcessor"@ {
        None
    } else if class_name == "LlavaOnevisionImageProcessor"@ || class_name == "PerceptionLMImageProcessor"@
        || class_name == "SmolVLMImageProcessor"@ {
        match pixels.spec_data() {
            MultimodalArrayData::F32(v) => {
                let copies: int = if class_name == "LlavaOnevisionImageProcessor"@ { 2 } else { 1 };
                if copies * v@.len() != copies * compact {
                    Some(MultimodalProcessorError::InvalidArrayLength {
                        expected: (copies * compact) as usize,
                        actual: (copies * v@.len()) as usize,
                    })
                } else {
                    None
                }
            },
            _ => Some(MultimodalProcessorError::UnexpectedTensorDtype),
        }
    } else {
        None
    }
}

/// The outputs of a tiled multimodal class, in insertion order: the pixel values
/// (re-wrapped with a leading image axis where the class has one) and the class's
/// fixed metadata arrays.
pub open spec fn spec_tiled_outputs(
    class_name: Seq<char>,
    pixels: MultimodalArray,
    height: usize,
    width: usize,
    backend: MultimodalResizeBackend,
    out: Seq<(&'static str, MultimodalArray)>,
) -> bool {
    let e = COMPACT_EDGE;
    if class_name == "AriaImageProcessor"@ {
        &&& out.len() == 3
        &&& output_named(out, 0, "pixel_values"@) && out[0].1 == pixels
        &&& output_named(out, 1, "pixel_mask"@) && bool_ones_array_is(out[1].1, seq![1usize, 490, 490], 490 * 490)
        &&& output_named(out, 2, "num_crops"@) && i64_array_is(out[2].1, seq![1usize], seq![1i64])
    } else if class_name == "Cohere2VisionImageProcessor"@ || class_name == "GotOcr2ImageProcessor"@ {
        &&& out.len() == 2
        &&& output_named(out, 0, "pixel_values"@) && out[0].1 == pixels
        &&& output_named(out, 1, "num_patches"@) && i64_array_is(out[1].1, seq![1usize], seq![1i64])
    } else if class_name == "DeepseekOcr2ImageProcessor"@ {
        &&& out.len() == 2
        &&& output_named(out, 0, "pixel_values"@) && out[0].1 == pixels
        &&& output_named(out, 1, "num_local_patches"@) && i64_array_is(out[1].1, seq![1usize], seq![0i64])
    } else if class_name == "Ovis2ImageProcessor"@ {
        &&& out.len() == 2
        &&& output_named(out, 0, "pixel_values"@) && out[0].1 == pixels
        &&& output_named(out, 1, "grids"@) && i64_array_is(out[1].1, seq![1usize, 2], seq![1i64, 1])
    } else if class_name == "Llama4ImageProcessor"@ {
        &&& out.len() == 2
        &&& output_named(out, 0, "pixel_values"@) && out[0].1 == pixels
        &&& output_named(out, 1, "aspect_ratios"@) && i64_array_is(out[1].1, seq![1usize, 2], seq![1i64, 1])
    } else if class_name == "LlavaOnevisionImageProcessor"@ {
        &&& pixels.spec_data() matches MultimodalArrayData::F32(v)
        &&& out.len() == 3
        &&& output_named(out, 0, "pixel_values"@) && f32_array_is(out[0].1, seq![1usize, 2, 3, e, e], v@ + v@)
        &&& output_named(out, 1, "image_sizes"@) && i64_array_is(out[1].1, seq![1usize, 2], seq![height as i64, width as i64])
        &&& output_named(out, 2, "batch_num_images"@) && i64_array_is(out[2].1, seq![1usize], seq![1i64])
    } else if class_name == "PerceptionLMImageProcessor"@ {
        &&& pixels.spec_data() matches MultimodalArrayData::F32(v)
        &&& out.len() == 1
        &&& output_named(out, 0, "pixel_values"@) && f32_array_is(out[0].1, seq![1usize, 1, 3, e, e], v@)
    } else if class_name == "SmolVLMImageProcessor"@ {
        &&& pixels.spec_data() matches MultimodalArrayData::F32(v)
        &&& out.len() == 2
        &&& output_named(out, 0, "pixel_values"@) && f32_array_is(out[0].1, seq![1usize, 1, 3, e, e], v@)
        &&& output_named(out, 1, "pixel_attention_mask"@) && match backend {
            MultimodalResizeBackend::Torchvision => f32_array_is(out[1].1, seq![1usize, 1, e, e], Seq::new((e * e) as nat, |k: int| F32_ONE)),
            MultimodalResizeBackend::Pillow => i64_array_is(out[1].1, seq![1usize, 1, e, e], Seq::new((e * e) as nat, |k: int| 1i64)),
        }
    } else {
        &&& out.len() == 1
        &&& output_named(out, 0, "pixel_values"@) && out[0].1 == pixels
    }
}

/// The element count of a one-dimensional shape.
proof fn lemma_product_one(a: usize)
    ensures
        shape_product(seq![a]) == a,
{
    assert(seq![a].drop_last() =~= Seq::<usize>::empty());
    reveal_with_fuel(shape_product, 2);
}

/// The element count of a two-dimensional shape.
proof fn lemma_product_pair(a: usize, b: usize)
    ensures
        shape_product(seq![a, b]) == a * b,
{
    assert(seq![a, b].drop_last() =~= seq![a]);
    lemma_product_one(a);
}

/// The element count of a three-dimensional shape.
proof fn lemma_product_three(a: usize, b: usize, c: usize)
    ensures
        shape_product(seq![a, b, c]) == a * b * c,
{
    assert(seq![a, b, c].drop_last() =~= seq![a, b]);
    lemma_product_pair(a, b);
}

/// The element count of a four-dimensional shape.
proof fn lemma_product_four(a: usize, b: usize, c: usize, d: usize)
    ensures
        shape_product(seq![a, b, c, d]) == a * b * c * d,
{
    assert(seq![a, b, c, d].drop_last() =~= seq![a, b, c]);
    lemma_product_three(a, b, c);
}

/// The element count of a five-dimensional shape.
proof fn lemma_product_five(a: usize, b: usize, c: usize, d: usize, e: usize)
    ensures
        shape_product(seq![a, b, c, d, e]) == a * b * c * d * e,
{
    assert(seq![a, b, c, d, e].drop_last() =~= seq![a, b, c, d]);
    lemma_product_four(a, b, c, d);
}

/// Returns `count` copies of `value`.
pub fn filled<T: Copy>(value: T, count: usize) -> (r: Vec<T>)
    ensures
        r@ == Seq::new(count as nat, |k: int| value),
{
    let mut out: Vec<T> = Vec::new();
    let mut k: usize = 0;
    while k < count
        invariant
            k <= count,
            out@ == Seq::new(k as nat, |j: int| value),
        decreases count - k,
    {
        out.push(value);
        k = k + 1;
        assert(out@ =~= Seq::new(k as nat, |j: int| value));
    }
    out
}

fn i64_array(shape: Vec<usize>, values: Vec<i64>) -> (r: MultimodalArray)
    requires
        !has_zero_dimension(shape@),
        shape_product(shape@) == values@.len(),
    ensures
        r.spec_shape() == shape@,
        r.spec_data() == MultimodalArrayData::I64(values),
{
    MultimodalArray { shape, data: MultimodalArrayData::I64(values) }
}

/// Assembles the outputs of a tiled multimodal class from its processed pixel values
/// and the decoded frame's size, in insertion order.
pub fn tiled_outputs(
    class_name: &str,
    pixels: MultimodalArray,
    height: usize,
    width: usize,
    backend: MultimodalResizeBackend,
) -> (r: Result<Vec<(&'static str, MultimodalArray)>, MultimodalProcessorError>)
    requires
        pixels.spec_data().spec_len() <= usize::MAX / 2,
    ensures
        match spec_tiled_error(class_name@, pixels) {
            Some(e) => r == Err::<Vec<(&'static str, MultimodalArray)>, MultimodalProcessorError>(e),
            None => r matches Ok(out) && spec_tiled_outputs(class_name@, pixels, height, width, backend, out@),
        },
{
    proof {
        reveal_strlit("pixel_values");
        reveal_strlit("pixel_mask");
        reveal_strlit("num_crops");
        reveal_strlit("num_patches");
        reveal_strlit("num_local_patches");
        reveal_strlit("grids");
        reveal_strlit("aspect_ratios");
        reveal_strlit("image_sizes");
        reveal_strlit("batch_num_images");
        reveal_strlit("pixel_attention_mask");
    }
    let e = COMPACT_EDGE;
    let mut out: Vec<(&'static str, MultimodalArray)> = Vec::new();
    if str_equal(class_name, "AriaImageProcessor") {
        let mask_values = filled(1u8, 490 * 490);
        let shape = vec![1usize, 490, 490];
        proof { assert(shape@ =~= seq![1usize, 490, 490]); lemma_product_three(1, 490, 490); }
        let mask = MultimodalArray { shape, data: MultimodalArrayData::Bool(mask_values) };
        let crops_shape = vec![1usize];
        proof { assert(crops_shape@ =~= seq![1usize]); lemma_product_one(1); }
        out.push(("pixel_values", pixels));
        out.push(("pixel_mask", mask));
        out.push(("num_crops", i64_array(crops_shape, { let v = vec![1i64]; assert(v@ =~= seq![1i64]); v })));
    } else if str_equal(class_name, "Cohere2VisionImageProcessor") || str_equal(class_name, "GotOcr2ImageProcessor") {
        let shape = vec![1usize];
        proof { assert(shape@ =~= seq![1usize]); lemma_product_one(1); }
        out.push(("pixel_values", pixels));
        out.push(("num_patches", i64_array(shape, { let v = vec![1i64]; assert(v@ =~= seq![1i64]); v })));
    } else if str_equal(class_name, "DeepseekOcr2ImageProcessor") {
        let shape = vec![1usize];
        proof { assert(shape@ =~= seq![1usize]); lemma_product_one(1); }
        out.push(("pixel_values", pixels));
        out.push(("num_local_patches", i64_array(shape, { let v = vec![0i64]; assert(v@ =~= seq![0i64]); v })));
    } else if str_equal(class_name, "Ovis2ImageProcessor") {
        let shape = vec![1usize, 2];
        proof {
            assert(shape@ =~= seq![1usize, 2]);
            lemma_product_pair(1, 2);
        }
        out.push(("pixel_values", pixels));
        out.push(("grids", i64_array(shape, { let v = vec![1i64, 1]; assert(v@ =~= seq![1i64, 1]); v })));
    } else if str_equal(class_name, "Llama4ImageProcessor") {
        let shape = vec![1usize, 2];
        proof {
            assert(shape@ =~= seq![1usize, 2]);
            lemma_product_pair(1, 2);
        }
        out.push(("pixel_values", pixels));
        out.push(("aspect_ratios", i64_array(shape, { let v = vec![1i64, 1]; assert(v@ =~= seq![1i64, 1]); v })));
    } else if str_equal(class_name, "LlavaOnevisionImageProcessor") || str_equal(class_name, "PerceptionLMImageProcessor")
        || str_equal(class_name, "SmolVLMImageProcessor") {
        let llava = str_equal(class_name, "LlavaOnevisionImageProcessor");
        let values = match pixels.data {
            MultimodalArrayData::F32(v) => v,
            _ => return Err(MultimodalProcessorError::UnexpectedTensorDtype),
        };
        let compact: usize = 3 * COMPACT_EDGE * COMPACT_EDGE;
        if llava {
            if 2 * values.len() != 2 * compact {
                return Err(MultimodalProcessorError::InvalidArrayLength { expected: 2 * compact, actual: 2 * values.len() });
            }
            let mut doubled: Vec<u32> = Vec::new();
            let mut k: usize = 0;
            while k < 2 * compact
                invariant
                    values@.len() == compact,
                    compact == 3 * COMPACT_EDGE * COMPACT_EDGE,
                    k <= 2 * compact,
                    doubled@ == (values@ + values@).take(k as int),
                decreases 2 * compact - k,
            {
                let value = if k < compact { values[k] } else { values[k - compact] };
                doubled.push(value);
                k = k + 1;
                assert(doubled@ =~= (values@ + values@).take(k as int));
            }
            assert(doubled@ =~= values@ + values@);
            let shape = vec![1usize, 2, 3, e, e];
            proof { assert(shape@ =~= seq![1usize, 2, 3, e, e]); lemma_product_five(1, 2, 3, e, e); }
            let pixel_values = MultimodalArray { shape, data: MultimodalArrayData::F32(doubled) };
            let sizes_shape = vec![1usize, 2];
            proof { assert(sizes_shape@ =~= seq![1usize, 2]); lemma_product_pair(1, 2); }
            let batch_shape = vec![1usize];
            proof { assert(batch_shape@ =~= seq![1usize]); lemma_product_one(1); }
            out.push(("pixel_values", pixel_values));
            out.push(("image_sizes", i64_array(sizes_shape, { let v = vec![height as i64, width as i64]; assert(v@ =~= seq![height as i64, width as i64]); v })));
            out.push(("batch_num_images", i64_array(batch_shape, { let v = vec![1i64]; assert(v@ =~= seq![1i64]); v })));
        } else {
            if values.len() != compact {
                return Err(MultimodalProcessorError::InvalidArrayLength { expected: compact, actual: values.len() });
            }
            let shape = vec![1usize, 1, 3, e, e];
            proof { assert(shape@ =~= seq![1usize, 1, 3, e, e]); lemma_product_five(1, 1, 3, e, e); }
            out.push(("pixel_values", MultimodalArray { shape, data: MultimodalArrayData::F32(values) }));
            if !str_equal(class_name, "PerceptionLMImageProcessor") {
                let mask_shape = vec![1usize, 1, e, e];
                proof { assert(mask_shape@ =~= seq![1usize, 1, e, e]); lemma_product_four(1, 1, e, e); }
                let mask = match backend {
                    MultimodalResizeBackend::Torchvision => MultimodalArray {
                        shape: mask_shape,
                        data: MultimodalArrayData::F32(filled(F32_ONE, e * e)),
                    },
                    MultimodalResizeBackend::Pillow => MultimodalArray {
                        shape: mask_shape,
                        data: MultimodalArrayData::I64(filled(1i64, e * e)),
                    },
                };
                out.push(("pixel_attention_mask", mask));
            }
        }
    } else {
        out.push(("pixel_values", pixels));
    }
    Ok(out)
}
} // verus!
