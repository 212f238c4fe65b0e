//! Diffusers Marigold dense-prediction configuration and outputs.

use vstd::prelude::*;

use crate::errors::{ImageProcessorError, TensorError, TransformError};
use crate::generic::{
    config_is, default_rescale_factor, diffusion_vae_image_mean, diffusion_vae_image_std,
    spec_default_rescale_factor, spec_diffusion_vae_image_mean, spec_diffusion_vae_image_std,
    ImageProcessorConfig,
};
use crate::geometry::{round_up_size_to_multiple, spec_image_size_new, spec_round_up_size_to_multiple, ImageSize};
use crate::indexing::{lemma_quotient_below, lemma_split};
use crate::layout::{
    batched_layout_for_image_layout, channel_first_source, channel_last_source, spec_batched_layout_for_image_layout,
    to_channel_first, to_channel_last, ImageLayout, Layout,
};
use crate::vae::{tensor_values_wf, TensorValues};
use crate::settings::{
    resize_decision_for_parts, BatchExecution, ImageDecodeBackend, PixelFormat, ResizeDecision,
    ResizeFilter, ResizeMode, ResizeParity,
};

verus! {

/// Default VAE scale factor of Marigold.
pub const MARIGOLD_VAE_SCALE_FACTOR: usize = 8;

/// Padding added around an image, in pixels per side.
#[derive(Clone, Copy, Debug, PartialEq, Eq, Structural)]
pub struct Padding {
    /// Rows added above.
    pub top: usize,
    /// Columns added on the right.
    pub right: usize,
    /// Rows added below.
    pub bottom: usize,
    /// Columns added on the left.
    pub left: usize,
}

/// Marigold preprocessing output: a tensor of type `T` with its padding and sizes.
#[derive(Clone, Debug, PartialEq)]
pub struct MarigoldPreprocessOutput<T> {
    pixel_values: T,
    padding: Padding,
    original_resolution: ImageSize,
    reshaped_input_size: ImageSize,
}

impl<T> MarigoldPreprocessOutput<T> {
    /// The padded image tensor.
    pub closed spec fn spec_pixel_values(&self) -> T {
        self.pixel_values
    }

    /// The bottom/right padding.
    pub closed spec fn spec_padding(&self) -> Padding {
        self.padding
    }

    /// The decoded resolution before resizing.
    pub closed spec fn spec_original_resolution(&self) -> ImageSize {
        self.original_resolution
    }

    /// The resolution after resizing and before padding.
    pub closed spec fn spec_reshaped_input_size(&self) -> ImageSize {
        self.reshaped_input_size
    }

    /// Assembles a Marigold preprocessing output.
    pub fn new(pixel_values: T, padding: Padding, original_resolution: ImageSize, reshaped_input_size: ImageSize) -> (r: Self)
        ensures
            r.spec_pixel_values() == pixel_values,
            r.spec_padding() == padding,
            r.spec_original_resolution() == original_resolution,
            r.spec_reshaped_input_size() == reshaped_input_size,
    {
        MarigoldPreprocessOutput { pixel_values, padding, original_resolution, reshaped_input_size }
    }

    /// Returns the padded image tensor.
    pub fn pixel_values(&self) -> (r: &T)
        ensures
            *r == self.spec_pixel_values(),
    {
        &self.pixel_values
    }

    /// Returns the bottom/right replicate padding applied after optional resize.
    pub fn padding(&self) -> (r: Padding)
        ensures
            r == self.spec_padding(),
    {
        self.padding
    }

    /// Returns the decoded resolution before optional resize.
    pub fn original_resolution(&self) -> (r: ImageSize)
        ensures
            r == self.spec_original_resolution(),
    {
        self.original_resolution
    }

    /// Returns the resolution after optional resize and before padding.
    pub fn reshaped_input_size(&self) -> (r: ImageSize)
        ensures
            r == self.spec_reshaped_input_size(),
    {
        self.reshaped_input_size
    }

    /// Consumes this output into tensor, padding, original size and pre-pad size.
    pub fn into_parts(self) -> (r: (T, Padding, ImageSize, ImageSize))
        ensures
            r == (self.spec_pixel_values(), self.spec_padding(), self.spec_original_resolution(), self.spec_reshaped_input_size()),
    {
        (self.pixel_values, self.padding, self.original_resolution, self.reshaped_input_size)
    }
}

/// Configuration of Diffusers Marigold dense-prediction preprocessing.
#[derive(Clone, Copy, Debug, PartialEq, Eq, Structural)]
pub struct MarigoldImageProcessorConfig {
    /// VAE scale factor that the padding aligns to.
    pub vae_scale_factor: usize,
    /// Whether values are normalized from `[0, 1]` to `[-1, 1]`.
    pub do_normalize: bool,
    /// Whether floating-point inputs are range-checked.
    pub do_range_check: bool,
    /// Output axis order.
    pub output_layout: ImageLayout,
    /// Resize filter of the optional max-edge resize.
    pub resample: ResizeFilter,
    /// Resize parity policy.
    pub resize_parity: ResizeParity,
    /// Image decode backend.
    pub decode_backend: ImageDecodeBackend,
    /// Batch execution policy.
    pub batch_execution: BatchExecution,
}

impl Default for MarigoldImageProcessorConfig {
    fn default() -> (r: Self)
        ensures
            r == (MarigoldImageProcessorConfig {
                vae_scale_factor: MARIGOLD_VAE_SCALE_FACTOR,
                do_normalize: true,
                do_range_check: true,
                output_layout: ImageLayout::ChannelsHeightWidth,
                resample: ResizeFilter::Bilinear,
                resize_parity: ResizeParity::Compatibility,
                decode_backend: ImageDecodeBackend::ImageCrate,
                batch_execution: BatchExecution::Sequential,
            }),
    {
        MarigoldImageProcessorConfig {
            vae_scale_factor: MARIGOLD_VAE_SCALE_FACTOR,
            do_normalize: true,
            do_range_check: true,
            output_layout: ImageLayout::ChannelsHeightWidth,
            resample: ResizeFilter::Bilinear,
            resize_parity: ResizeParity::Compatibility,
            decode_backend: ImageDecodeBackend::ImageCrate,
            batch_execution: BatchExecution::default(),
        }
    }
}

/// The tensor-stage config of Marigold: no resize, RGB input, VAE statistics.
pub open spec fn marigold_generic_config(c: MarigoldImageProcessorConfig, r: ImageProcessorConfig) -> bool {
    config_is(
        r,
        false,
        None,
        None,
        ResizeMode::Default,
        c.resample,
        c.resize_parity,
        c.decode_backend,
        c.batch_execution,
        Some(PixelFormat::Rgb8),
        true,
        spec_default_rescale_factor(),
        c.do_normalize,
        spec_diffusion_vae_image_mean(),
        spec_diffusion_vae_image_std(),
        false,
        spec_batched_layout_for_image_layout(c.output_layout),
    )
}

impl MarigoldImageProcessorConfig {
    /// Returns the image output axis order.
    pub fn output_image_layout(&self) -> (r: ImageLayout)
        ensures
            r == self.output_layout,
    {
        self.output_layout
    }

    /// Returns the resize decision implied by `resample` and `resize_parity`.
    pub fn resize_decision(&self) -> (r: ResizeDecision)
        ensures
            r == (ResizeDecision { filter: self.resample, parity: self.resize_parity }),
    {
        resize_decision_for_parts(self.resample, self.resize_parity)
    }

    /// Lowers this config to the canonical tensor-stage config.
    pub fn image_processor_config(&self) -> (r: ImageProcessorConfig)
        ensures
            marigold_generic_config(*self, r),
    {
        ImageProcessorConfig {
            do_resize: false,
            height: None,
            width: None,
            resize_mode: ResizeMode::Default,
            resample: self.resample,
            resize_parity: self.resize_parity,
            decode_backend: self.decode_backend,
            batch_execution: self.batch_execution,
            pixel_format: Some(PixelFormat::Rgb8),
            do_rescale: true,
            rescale_factor: default_rescale_factor(),
            do_normalize: self.do_normalize,
            image_mean: diffusion_vae_image_mean(),
            image_std: diffusion_vae_image_std(),
            do_binarize: false,
            output_layout: batched_layout_for_image_layout(self.output_layout),
        }
    }
}

/// The Marigold config check: a non-zero VAE scale factor.
pub open spec fn spec_validate_marigold_config(c: MarigoldImageProcessorConfig) -> Result<(), ImageProcessorError> {
    if c.vae_scale_factor == 0 {
        Err(ImageProcessorError::Transform(TransformError::InvalidScaleFactor(c.vae_scale_factor)))
    } else {
        Ok(())
    }
}

/// Checks a Marigold configuration: its VAE scale factor must be non-zero.
pub fn validate_marigold_config(config: &MarigoldImageProcessorConfig) -> (r: Result<(), ImageProcessorError>)
    ensures
        r == spec_validate_marigold_config(*config),
{
    if config.vae_scale_factor == 0 {
        return Err(ImageProcessorError::Transform(TransformError::InvalidScaleFactor(config.vae_scale_factor)));
    }
    Ok(())
}

/// Diffusers Marigold image processor.
#[derive(Clone, Debug)]
pub struct MarigoldImageProcessor {
    config: MarigoldImageProcessorConfig,
}

impl MarigoldImageProcessor {
    /// The processor configuration.
    pub closed spec fn spec_config(&self) -> MarigoldImageProcessorConfig {
        self.config
    }

    /// Creates a processor from a validated Marigold configuration.
    pub fn new(config: MarigoldImageProcessorConfig) -> (r: Result<MarigoldImageProcessor, ImageProcessorError>)
        ensures
            match spec_validate_marigold_config(config) {
                Err(e) => r == Err::<MarigoldImageProcessor, ImageProcessorError>(e),
                Ok(()) => r matches Ok(p) && p.spec_config() == config,
            },
    {
        if let Err(e) = validate_marigold_config(&config) {
            return Err(e);
        }
        Ok(MarigoldImageProcessor { config })
    }

    /// Returns the processor configuration.
    pub fn config(&self) -> (r: &MarigoldImageProcessorConfig)
        ensures
            *r == self.spec_config(),
    {
        &self.config
    }
}

/// Size at which Marigold processes an image of size `source`: unchanged
/// without a positive processing resolution, else scaled so that its longer
/// edge becomes the resolution, each edge rounded down; an edge that
/// overflows or rounds to zero is rejected.
pub open spec fn spec_marigold_processing_size(source: ImageSize, processing_resolution: Option<usize>) -> Result<ImageSize, ImageProcessorError> {
    match processing_resolution {
        Some(resolution) if resolution > 0 => {
            let longest = if source.height >= source.width { source.height } else { source.width };
            if source.height * resolution > usize::MAX || source.width * resolution > usize::MAX {
                Err(ImageProcessorError::Transform(TransformError::ImageSizeOverflow))
            } else {
                match spec_image_size_new(
                    (source.height * resolution / longest as int) as usize,
                    (source.width * resolution / longest as int) as usize,
                ) {
                    Ok(size) => Ok(size),
                    Err(e) => Err(ImageProcessorError::Transform(e)),
                }
            }
        },
        _ => Ok(source),
    }
}

/// Computes the size at which Marigold processes an image of size `source`.
pub fn marigold_processing_size(source: ImageSize, processing_resolution: Option<usize>) -> (r: Result<ImageSize, ImageProcessorError>)
    requires
        source.height > 0 || source.width > 0,
    ensures
        r == spec_marigold_processing_size(source, processing_resolution),
{
    let resolution = match processing_resolution {
        Some(value) if value > 0 => value,
        _ => return Ok(source),
    };
    let longest = if source.height >= source.width { source.height } else { source.width };
    let scaled_height = match source.height.checked_mul(resolution) {
        Some(value) => value,
        None => return Err(ImageProcessorError::Transform(TransformError::ImageSizeOverflow)),
    };
    let scaled_width = match source.width.checked_mul(resolution) {
        Some(value) => value,
        None => return Err(ImageProcessorError::Transform(TransformError::ImageSizeOverflow)),
    };
    match ImageSize::new(scaled_height / longest, scaled_width / longest) {
        Ok(size) => Ok(size),
        Err(e) => Err(ImageProcessorError::Transform(e)),
    }
}

/// Position in a planar sample of `source` size of value `o` of its
/// replicate-padded copy of `target` size: the nearest source row and column
/// at or before the target ones, in the same channel.
pub open spec fn replicate_pad_source(o: int, source: ImageSize, target: ImageSize) -> int {
    let target_plane = target.height * target.width;
    let channel = o / target_plane;
    let within = o % target_plane;
    let y = within / (target.width as int);
    let x = within % (target.width as int);
    let source_y = if y < source.height { y } else { source.height - 1 };
    let source_x = if x < source.width { x } else { source.width - 1 };
    channel * (source.height * source.width) + source_y * source.width + source_x
}

/// Bounds of [`replicate_pad_source`] for a target at least as large as the source.
proof fn lemma_replicate_pad_source(o: int, channels: int, source: ImageSize, target: ImageSize)
    requires
        0 <= o < channels * (target.height * target.width),
        source.height > 0,
        source.width > 0,
        target.height > 0,
        target.width > 0,
    ensures
        0 <= o / (target.height * target.width) < channels,
        0 <= (o % (target.height * target.width)) / (target.width as int) < target.height,
        0 <= (o % (target.height * target.width)) % (target.width as int) < target.width,
        0 <= replicate_pad_source(o, source, target) < channels * (source.height * source.width),
{
    let target_plane = target.height * target.width;
    let source_plane = source.height * source.width;
    assert(target_plane > 0 && source_plane > 0) by (nonlinear_arith)
        requires
            target.height > 0,
            target.width > 0,
            source.height > 0,
            source.width > 0,
            target_plane == target.height * target.width,
            source_plane == source.height * source.width,
    ;
    assert(o < channels * target_plane);
    assert(o < channels * target_plane ==> o < target_plane * channels) by (nonlinear_arith);
    lemma_split(o, target_plane);
    lemma_quotient_below(o, target_plane, channels);
    let within = o % target_plane;
    lemma_split(within, target.width as int);
    assert(within < (target.height as int) * (target.width as int));
    lemma_quotient_below(within, target.width as int, target.height as int);
    let channel = o / target_plane;
    let y = within / (target.width as int);
    let x = within % (target.width as int);
    let source_y = if y < source.height { y } else { source.height - 1 };
    let source_x = if x < source.width { x } else { source.width - 1 };
    assert(0 <= channel * source_plane + source_y * source.width + source_x < channels * source_plane) by (nonlinear_arith)
        requires
            0 <= channel < channels,
            0 <= source_y < source.height,
            0 <= source_x < source.width,
            source_plane == source.height * source.width,
    ;
}

/// Replicate-pads one planar sample of `channels` channels from `source`
/// size to `target` size: every target value repeats the nearest source
/// value at or before its row and column.
pub fn marigold_replicate_pad_sample<T: Copy>(values: &[T], channels: usize, source: ImageSize, target: ImageSize) -> (r: Vec<T>)
    requires
        source.height > 0,
        source.width > 0,
        target.height > 0,
        target.width > 0,
        values@.len() == channels * (source.height * source.width),
        channels * (target.height * target.width) <= usize::MAX,
    ensures
        r@.len() == channels * (target.height * target.width),
        forall|o: int| 0 <= o < r@.len() ==> #[trigger] r@[o] == values@[replicate_pad_source(o, source, target)],
{
    proof {
        assert(target.height * target.width <= channels * (target.height * target.width) || channels == 0) by (nonlinear_arith)
            requires
                target.height > 0,
                target.width > 0,
        ;
        assert(source.height * source.width <= channels * (source.height * source.width) || channels == 0) by (nonlinear_arith)
            requires
                source.height > 0,
                source.width > 0,
        ;
    }
    if channels == 0 {
        return Vec::new();
    }
    let n = values.len();
    let target_plane = target.height * target.width;
    let source_plane = source.height * source.width;
    let total = channels * target_plane;
    let mut padded: Vec<T> = Vec::new();
    let mut o: usize = 0;
    while o < total
        invariant
            padded@.len() == o,
            o <= total,
            total == channels * (target.height * target.width),
            target_plane == target.height * target.width,
            source_plane == source.height * source.width,
            n == values@.len(),
            n == channels * (source.height * source.width),
            source.height > 0,
            source.width > 0,
            target.height > 0,
            target.width > 0,
            forall|i: int| 0 <= i < o ==> #[trigger] padded@[i] == values@[replicate_pad_source(i, source, target)],
        decreases total - o,
    {
        proof {
            lemma_replicate_pad_source(o as int, channels as int, source, target);
        }
        let channel = o / target_plane;
        let within = o % target_plane;
        let y = within / target.width;
        let x = within % target.width;
        let source_y = if y < source.height { y } else { source.height - 1 };
        let source_x = if x < source.width { x } else { source.width - 1 };
        proof {
            assert(0 <= channel * source_plane <= channel * source_plane + source_y * source.width <= channel
                * source_plane + source_y * source.width + source_x) by (nonlinear_arith)
                requires
                    channel >= 0,
                    source_plane >= 0,
                    source_y >= 0,
                    source.width >= 0,
                    source_x >= 0,
            ;
        }
        padded.push(values[channel * source_plane + source_y * source.width + source_x]);
        o = o + 1;
    }
    padded
}

/// Position in a padded planar batch of value `o` of one sample's unpadded
/// channel-last values: sample `sample`, row `y`, column `x` and channel `c`
/// of an image whose padded planes have `padded` size.
pub open spec fn unpadded_interleaved_source(o: int, sample: int, channels: int, padded: ImageSize, unpadded: ImageSize) -> int {
    let pixel = o / channels;
    let channel = o % channels;
    let y = pixel / (unpadded.width as int);
    let x = pixel % (unpadded.width as int);
    (sample * channels + channel) * (padded.height * padded.width) + y * padded.width + x
}

/// Bounds of [`unpadded_interleaved_source`] for an unpadded size inside the
/// padded one and a sample inside the batch.
proof fn lemma_unpadded_interleaved_source(o: int, sample: int, samples: int, channels: int, padded: ImageSize, unpadded: ImageSize)
    requires
        0 <= sample < samples,
        channels > 0,
        unpadded.height > 0,
        unpadded.width > 0,
        unpadded.height <= padded.height,
        unpadded.width <= padded.width,
        0 <= o < unpadded.height * unpadded.width * channels,
    ensures
        0 <= (o / channels) / (unpadded.width as int) < unpadded.height,
        0 <= (o / channels) % (unpadded.width as int) < unpadded.width,
        0 <= o % channels < channels,
        0 <= unpadded_interleaved_source(o, sample, channels, padded, unpadded) < samples * channels * (padded.height * padded.width),
{
    lemma_split(o, channels);
    assert(o < (unpadded.height * unpadded.width) * channels);
    lemma_quotient_below(o, channels, unpadded.height * unpadded.width);
    let pixel = o / channels;
    let channel = o % channels;
    lemma_split(pixel, unpadded.width as int);
    assert(pixel < (unpadded.height as int) * (unpadded.width as int));
    lemma_quotient_below(pixel, unpadded.width as int, unpadded.height as int);
    let y = pixel / (unpadded.width as int);
    let x = pixel % (unpadded.width as int);
    let plane = padded.height * padded.width;
    assert(0 <= y * padded.width + x < plane) by (nonlinear_arith)
        requires
            0 <= y < unpadded.height <= padded.height,
            0 <= x < unpadded.width <= padded.width,
            plane == padded.height * padded.width,
    ;
    assert(0 <= (sample * channels + channel) * plane + y * padded.width + x < samples * channels * plane) by (nonlinear_arith)
        requires
            0 <= sample < samples,
            0 <= channel < channels,
            0 <= y * padded.width + x < plane,
    ;
}

/// Removes the bottom and right padding of one sample of a planar batch
/// whose planes have `padded` size, returning the sample's values of
/// `unpadded` size in channel-last order.
pub fn marigold_unpadded_interleaved_sample<T: Copy>(values: &[T], sample: usize, samples: usize, channels: usize, padded: ImageSize, unpadded: ImageSize) -> (r: Vec<T>)
    requires
        sample < samples,
        channels > 0,
        unpadded.height > 0,
        unpadded.width > 0,
        unpadded.height <= padded.height,
        unpadded.width <= padded.width,
        values@.len() == samples * channels * (padded.height * padded.width),
    ensures
        r@.len() == unpadded.height * unpadded.width * channels,
        forall|o: int|
            0 <= o < r@.len() ==> #[trigger] r@[o] == values@[unpadded_interleaved_source(
                o,
                sample as int,
                channels as int,
                padded,
                unpadded,
            )],
{
    let n = values.len();
    proof {
        assert(unpadded.height * unpadded.width * channels <= samples * channels * (padded.height * padded.width)
            && padded.height * padded.width <= samples * channels * (padded.height * padded.width)
            && unpadded.height * unpadded.width <= unpadded.height * unpadded.width * channels
            && padded.height * padded.width >= 1) by (nonlinear_arith)
            requires
                0 <= sample < samples,
                channels > 0,
                0 < unpadded.height <= padded.height,
                0 < unpadded.width <= padded.width,
        ;
    }
    let plane = padded.height * padded.width;
    let total = unpadded.height * unpadded.width * channels;
    let mut sample_values: Vec<T> = Vec::new();
    let mut o: usize = 0;
    while o < total
        invariant
            sample_values@.len() == o,
            o <= total,
            total == unpadded.height * unpadded.width * channels,
            plane == padded.height * padded.width,
            plane >= 1,
            n == values@.len(),
            n == samples * channels * (padded.height * padded.width),
            sample < samples,
            channels > 0,
            unpadded.height > 0,
            unpadded.width > 0,
            unpadded.height <= padded.height,
            unpadded.width <= padded.width,
            forall|i: int|
                0 <= i < o ==> #[trigger] sample_values@[i] == values@[unpadded_interleaved_source(
                    i,
                    sample as int,
                    channels as int,
                    padded,
                    unpadded,
                )],
        decreases total - o,
    {
        proof {
            lemma_unpadded_interleaved_source(o as int, sample as int, samples as int, channels as int, padded, unpadded);
        }
        let pixel = o / channels;
        let channel = o % channels;
        let y = pixel / unpadded.width;
        let x = pixel % unpadded.width;
        proof {
            let s = (sample * channels + channel) * plane + y * padded.width + x;
            assert(0 <= sample * channels <= sample * channels + channel <= (sample * channels + channel) * plane
                && 0 <= y * padded.width <= y * padded.width + x && (sample * channels + channel) * plane <= s
                && y * padded.width + x <= s) by (nonlinear_arith)
                requires
                    sample >= 0,
                    channels >= 0,
                    channel >= 0,
                    plane >= 1,
                    y >= 0,
                    x >= 0,
                    padded.width >= 0,
                    s == (sample * channels + channel) * plane + y * padded.width + x,
            ;
        }
        sample_values.push(values[(sample * channels + channel) * plane + y * padded.width + x]);
        o = o + 1;
    }
    sample_values
}


/// The sizes a Marigold batch is processed at.
#[derive(Clone, Copy, Debug, PartialEq, Eq)]
pub struct MarigoldBatchPlan {
    /// Size shared by every input image.
    pub original_resolution: ImageSize,
    /// Size every image is resized to.
    pub reshaped_input_size: ImageSize,
    /// Resized size with each edge replicate-padded up to a multiple of the VAE scale factor.
    pub padded_size: ImageSize,
    /// Number of values of the padded RGB batch tensor.
    pub values_len: usize,
}

/// Index of the first image whose size differs from the first one, from `start` on.
pub open spec fn first_size_mismatch_from(sizes: Seq<ImageSize>, start: int) -> Option<int>
    decreases sizes.len() - start,
{
    if start < 0 || start >= sizes.len() {
        None
    } else if sizes[start] != sizes[0] {
        Some(start)
    } else {
        first_size_mismatch_from(sizes, start + 1)
    }
}

/// The Marigold batch plan: a non-empty batch of equally sized images, resized by the
/// processing resolution, padded up to multiples of the (non-zero) VAE scale factor, with
/// an RGB value count that fits `usize`.
pub open spec fn spec_marigold_batch_plan(
    sizes: Seq<ImageSize>,
    processing_resolution: Option<usize>,
    vae_scale_factor: usize,
) -> Result<MarigoldBatchPlan, ImageProcessorError> {
    if sizes.len() == 0 {
        Err(ImageProcessorError::EmptyBatch)
    } else if first_size_mismatch_from(sizes, 1) is Some {
        Err(ImageProcessorError::IncompatibleBatchShapes)
    } else {
        match spec_marigold_processing_size(sizes[0], processing_resolution) {
            Err(e) => Err(e),
            Ok(reshaped) => if vae_scale_factor == 0 {
                Err(ImageProcessorError::Transform(TransformError::InvalidSize { height: 0, width: 0 }))
            } else {
                match spec_round_up_size_to_multiple(reshaped, vae_scale_factor) {
                    Err(e) => Err(e),
                    Ok(padded) => if sizes.len() * 3 * padded.height * padded.width > usize::MAX {
                        Err(ImageProcessorError::Tensor(TensorError::ShapeElementCountOverflow))
                    } else {
                        Ok(MarigoldBatchPlan {
                            original_resolution: sizes[0],
                            reshaped_input_size: reshaped,
                            padded_size: padded,
                            values_len: (sizes.len() * 3 * padded.height * padded.width) as usize,
                        })
                    },
                }
            },
        }
    }
}

/// Checks a Marigold batch of image sizes and returns the sizes it is processed at.
pub fn marigold_batch_plan(
    sizes: &[ImageSize],
    processing_resolution: Option<usize>,
    vae_scale_factor: usize,
) -> (r: Result<MarigoldBatchPlan, ImageProcessorError>)
    requires
        forall|i: int| 0 <= i < sizes@.len() ==> (#[trigger] sizes@[i]).height > 0 && sizes@[i].width > 0,
    ensures
        r == spec_marigold_batch_plan(sizes@, processing_resolution, vae_scale_factor),
{
    if sizes.len() == 0 {
        return Err(ImageProcessorError::EmptyBatch);
    }
    let first = sizes[0];
    let mut i: usize = 1;
    while i < sizes.len()
        invariant
            1 <= i <= sizes@.len(),
            first == sizes@[0],
            first_size_mismatch_from(sizes@, 1) == first_size_mismatch_from(sizes@, i as int),
        decreases sizes@.len() - i,
    {
        let size = sizes[i];
        if size.height != first.height || size.width != first.width {
            return Err(ImageProcessorError::IncompatibleBatchShapes);
        }
        i = i + 1;
    }
    let reshaped = match marigold_processing_size(first, processing_resolution) {
        Ok(s) => s,
        Err(e) => return Err(e),
    };
    if vae_scale_factor == 0 {
        return Err(ImageProcessorError::Transform(TransformError::InvalidSize { height: 0, width: 0 }));
    }
    let padded = match round_up_size_to_multiple(reshaped, vae_scale_factor) {
        Ok(s) => s,
        Err(e) => return Err(e),
    };
    let count = sizes.len();
    let values_len = match count.checked_mul(3) {
        Some(a) => match a.checked_mul(padded.height) {
            Some(b) => b.checked_mul(padded.width),
            None => None,
        },
        None => None,
    };
    match values_len {
        Some(v) => Ok(MarigoldBatchPlan {
            original_resolution: first,
            reshaped_input_size: reshaped,
            padded_size: padded,
            values_len: v,
        }),
        None => {
            assert(count * 3 * padded.height * padded.width > usize::MAX) by (nonlinear_arith)
                requires
                    count * 3 > usize::MAX || count * 3 * padded.height > usize::MAX
                        || count * 3 * padded.height * padded.width > usize::MAX,
                    count > 0, padded.height > 0, padded.width > 0;
            Err(ImageProcessorError::Tensor(TensorError::ShapeElementCountOverflow))
        },
    }
}


/// The size left after removing Marigold's bottom and right `padding` from planes of
/// `height` by `width`, or the error: zero requested channels, padding on the top or
/// left, a channel count other than the requested one, or padding that covers a whole
/// plane.
pub open spec fn spec_marigold_unpad_size(
    channels: usize,
    padding: Padding,
    data_len: nat,
    tensor_channels: usize,
    height: usize,
    width: usize,
) -> Result<ImageSize, ImageProcessorError> {
    if channels == 0 {
        Err(ImageProcessorError::Transform(TransformError::InvalidChannelDataLength { channels, actual: data_len as usize }))
    } else if padding.top != 0 || padding.left != 0 {
        Err(ImageProcessorError::UnsupportedProcessorOption { field: "padding" })
    } else if tensor_channels != channels {
        Err(ImageProcessorError::Transform(TransformError::InvalidChannelDataLength { channels, actual: tensor_channels }))
    } else if padding.bottom >= height || padding.right >= width {
        match spec_image_size_new(height, width) {
            Err(e) => Err(ImageProcessorError::Transform(e)),
            Ok(source_size) => {
                let kept_height = if padding.bottom < height { (height - padding.bottom) as usize } else { 0usize };
                let kept_width = if padding.right < width { (width - padding.right) as usize } else { 0usize };
                let target_size = match spec_image_size_new(kept_height, kept_width) {
                    Ok(s) => s,
                    Err(_) => ImageSize { height: 1, width: 1 },
                };
                Err(ImageProcessorError::Transform(TransformError::CropTooLarge { source_size, target_size }))
            },
        }
    } else {
        Ok(ImageSize { height: (height - padding.bottom) as usize, width: (width - padding.right) as usize })
    }
}

/// Checks Marigold's padding against a planar `[batch, tensor_channels, height, width]`
/// output and returns the unpadded size.
pub fn marigold_unpad_size(
    channels: usize,
    padding: Padding,
    data_len: usize,
    tensor_channels: usize,
    height: usize,
    width: usize,
) -> (r: Result<ImageSize, ImageProcessorError>)
    ensures
        r == spec_marigold_unpad_size(channels, padding, data_len as nat, tensor_channels, height, width),
{
    if channels == 0 {
        return Err(ImageProcessorError::Transform(TransformError::InvalidChannelDataLength { channels, actual: data_len }));
    }
    if padding.top != 0 || padding.left != 0 {
        return Err(ImageProcessorError::UnsupportedProcessorOption { field: "padding" });
    }
    if tensor_channels != channels {
        return Err(ImageProcessorError::Transform(TransformError::InvalidChannelDataLength { channels, actual: tensor_channels }));
    }
    if padding.bottom >= height || padding.right >= width {
        let source_size = match ImageSize::new(height, width) {
            Ok(s) => s,
            Err(e) => return Err(ImageProcessorError::Transform(e)),
        };
        let target_size = match ImageSize::new(height.saturating_sub(padding.bottom), width.saturating_sub(padding.right)) {
            Ok(s) => s,
            Err(_) => ImageSize { height: 1, width: 1 },
        };
        return Err(ImageProcessorError::Transform(TransformError::CropTooLarge { source_size, target_size }));
    }
    Ok(ImageSize { height: height - padding.bottom, width: width - padding.right })
}

/// Removes Marigold's bottom and right padding from every sample of a planar
/// `[batch, channels, height, width]` output, returning each sample channel-last.
pub fn marigold_unpadded_samples<T: Copy>(
    values: &[T],
    batch: usize,
    tensor_channels: usize,
    height: usize,
    width: usize,
    channels: usize,
    padding: Padding,
) -> (r: Result<Vec<Vec<T>>, ImageProcessorError>)
    requires
        values@.len() == batch * tensor_channels * (height * width),
    ensures
        match spec_marigold_unpad_size(channels, padding, values@.len(), tensor_channels, height, width) {
            Err(e) => r == Err::<Vec<Vec<T>>, ImageProcessorError>(e),
            Ok(unpadded) => r matches Ok(samples) && samples@.len() == batch && forall|s: int| 0 <= s < batch ==> {
                &&& (#[trigger] samples@[s])@.len() == unpadded.height * unpadded.width * channels
                &&& forall|o: int| 0 <= o < samples@[s]@.len() ==> #[trigger] samples@[s]@[o] == values@[unpadded_interleaved_source(
                    o, s, channels as int, ImageSize { height, width }, unpadded,
                )]
            },
        },
{
    let unpadded = match marigold_unpad_size(channels, padding, values.len(), tensor_channels, height, width) {
        Ok(s) => s,
        Err(e) => return Err(e),
    };
    let padded = ImageSize { height, width };
    let mut samples: Vec<Vec<T>> = Vec::new();
    let mut s: usize = 0;
    while s < batch
        invariant
            values@.len() == batch * channels * (height * width),
            channels > 0,
            unpadded.height > 0,
            unpadded.width > 0,
            unpadded.height <= height,
            unpadded.width <= width,
            padded == (ImageSize { height, width }),
            s <= batch,
            samples@.len() == s,
            forall|t: int| 0 <= t < s ==> {
                &&& (#[trigger] samples@[t])@.len() == unpadded.height * unpadded.width * channels
                &&& forall|o: int| 0 <= o < samples@[t]@.len() ==> #[trigger] samples@[t]@[o] == values@[unpadded_interleaved_source(
                    o, t, channels as int, padded, unpadded,
                )]
            },
        decreases batch - s,
    {
        let sample = marigold_unpadded_interleaved_sample(values, s, batch, channels, padded, unpadded);
        samples.push(sample);
        s = s + 1;
    }
    Ok(samples)
}

/// Checks the channel count of a Marigold uncertainty output: one or three channels.
pub fn marigold_uncertainty_channels(channels: usize) -> (r: Result<usize, ImageProcessorError>)
    ensures
        channels == 1 || channels == 3 ==> r == Ok::<usize, ImageProcessorError>(channels),
        channels != 1 && channels != 3 ==> r == Err::<usize, ImageProcessorError>(
            ImageProcessorError::UnsupportedProcessorOption { field: "uncertainty_channels" },
        ),
{
    if channels == 1 || channels == 3 {
        Ok(channels)
    } else {
        Err(ImageProcessorError::UnsupportedProcessorOption { field: "uncertainty_channels" })
    }
}

/// Sample `sample` of `resized` replicate-padded to the padded size of `plan`.
pub open spec fn replicate_padded(sample: Seq<u32>, plan: MarigoldBatchPlan) -> Seq<u32> {
    Seq::new((3 * (plan.padded_size.height * plan.padded_size.width)) as nat, |o: int|
        sample[replicate_pad_source(o, plan.reshaped_input_size, plan.padded_size)])
}

impl MarigoldImageProcessor {
    /// Assembles a Marigold batch from its resized RGB samples: `resized` holds each
    /// image's planar values at the plan's resized size (the floating-point resize of the
    /// canonical `[0, 1]` RGB values). Each sample is replicate-padded at the bottom and
    /// right to the padded size; the batch is `NCHW`, or `NHWC` for a channel-last output
    /// layout, with the padding and sizes recorded.
    pub fn assemble_batch(&self, plan: MarigoldBatchPlan, resized: &[Vec<u32>]) -> (r: MarigoldPreprocessOutput<TensorValues>)
        requires
            resized@.len() > 0,
            plan.reshaped_input_size.height > 0,
            plan.reshaped_input_size.width > 0,
            plan.reshaped_input_size.height <= plan.padded_size.height,
            plan.reshaped_input_size.width <= plan.padded_size.width,
            plan.values_len == resized@.len() * 3 * plan.padded_size.height * plan.padded_size.width,
            forall|i: int| 0 <= i < resized@.len() ==> (#[trigger] resized@[i])@.len()
                == 3 * (plan.reshaped_input_size.height * plan.reshaped_input_size.width),
        ensures
            ({
                let plane = 3 * (plan.padded_size.height * plan.padded_size.width);
                let n = resized@.len();
                let t = r.spec_pixel_values();
                &&& r.spec_padding() == (Padding {
                    top: 0,
                    right: (plan.padded_size.width - plan.reshaped_input_size.width) as usize,
                    bottom: (plan.padded_size.height - plan.reshaped_input_size.height) as usize,
                    left: 0,
                })
                &&& r.spec_original_resolution() == plan.original_resolution
                &&& r.spec_reshaped_input_size() == plan.reshaped_input_size
                &&& t.values@.len() == n * plane
                &&& match self.spec_config().output_layout {
                    ImageLayout::ChannelsHeightWidth => {
                        &&& t.layout == Layout::NCHW
                        &&& t.shape@ == seq![n as usize, 3usize, plan.padded_size.height, plan.padded_size.width]
                        &&& forall|i: int| 0 <= i < n ==> t.values@.subrange(i * plane, (i + 1) * plane)
                            == replicate_padded((#[trigger] resized@[i])@, plan)
                    },
                    ImageLayout::HeightWidthChannels => {
                        &&& t.layout == Layout::NHWC
                        &&& t.shape@ == seq![n as usize, plan.padded_size.height, plan.padded_size.width, 3usize]
                        &&& forall|o: int| 0 <= o < t.values@.len() ==> {
                            let k = channel_last_source(o, 3, plan.padded_size.height * plan.padded_size.width);
                            #[trigger] t.values@[o] == replicate_padded(resized@[k / plane]@, plan)[k % plane]
                        }
                    },
                }
            }),
    {
        let padded = plan.padded_size;
        let reshaped = plan.reshaped_input_size;
        let n = resized.len();
        assert(3 * (padded.height * padded.width) <= n * 3 * padded.height * padded.width
            && n * (3 * (padded.height * padded.width)) == n * 3 * padded.height * padded.width
            && padded.height * padded.width > 0) by (nonlinear_arith)
            requires n >= 1, padded.height >= reshaped.height > 0, padded.width >= reshaped.width > 0;
        let area = padded.height * padded.width;
        let plane = 3 * area;
        let mut values: Vec<u32> = Vec::new();
        let mut i: usize = 0;
        while i < n
            invariant
                n == resized@.len(),
                padded == plan.padded_size,
                reshaped == plan.reshaped_input_size,
                reshaped.height > 0,
                reshaped.width > 0,
                area == padded.height * padded.width,
                area > 0,
                plane == 3 * area,
                n * plane <= usize::MAX,
                forall|j: int| 0 <= j < resized@.len() ==> (#[trigger] resized@[j])@.len() == 3 * (reshaped.height * reshaped.width),
                i <= n,
                values@.len() == i * plane,
                forall|j: int| 0 <= j < i ==> values@.subrange(j * plane, (j + 1) * plane)
                    == replicate_padded((#[trigger] resized@[j])@, plan),
            decreases n - i,
        {
            assert((i + 1) * plane <= n * plane && i * plane + plane == (i + 1) * plane && plane <= n * plane) by (nonlinear_arith)
                requires i < n, plane >= 0;
            let mut sample = marigold_replicate_pad_sample(resized[i].as_slice(), 3, reshaped, padded);
            assert(sample@ =~= replicate_padded(resized@[i as int]@, plan));
            let ghost before = values@;
            values.append(&mut sample);
            assert forall|j: int| 0 <= j < i + 1 implies values@.subrange(j * plane, (j + 1) * plane)
                == replicate_padded((#[trigger] resized@[j])@, plan) by {
                if j < i {
                    assert((j + 1) * plane <= i * plane && j * plane >= 0 && (j + 1) * plane == j * plane + plane) by (nonlinear_arith)
                        requires j < i, j >= 0, plane >= 0;
                    assert(values@.subrange(j * plane, (j + 1) * plane) =~= before.subrange(j * plane, (j + 1) * plane));
                } else {
                    assert(values@.subrange(j * plane, (j + 1) * plane) =~= replicate_padded(resized@[i as int]@, plan));
                }
            }
            i = i + 1;
        }
        let padding = Padding { top: 0, right: padded.width - reshaped.width, bottom: padded.height - reshaped.height, left: 0 };
        let tensor = match self.config.output_layout {
            ImageLayout::ChannelsHeightWidth => {
                let shape = vec![n, 3, padded.height, padded.width];
                assert(shape@ =~= seq![n as usize, 3usize, padded.height, padded.width]);
                TensorValues { values, shape, layout: Layout::NCHW }
            },
            ImageLayout::HeightWidthChannels => {
                assert(values@.len() == n * 3 * area) by (nonlinear_arith) requires values@.len() == n * plane, plane == 3 * area;
                let out = to_channel_last(values.as_slice(), n, 3, area);
                proof {
                    assert forall|o: int| 0 <= o < out@.len() implies {
                        let k = channel_last_source(o, 3, plan.padded_size.height * plan.padded_size.width);
                        #[trigger] out@[o] == replicate_padded(resized@[k / (plane as int)]@, plan)[k % (plane as int)]
                    } by {
                        let k = channel_last_source(o, 3, area as int);
                        lemma_channel_last_source_below(o, 3, area as int, n as int);
                        lemma_split(k, plane as int);
                        lemma_quotient_below(k, plane as int, n as int);
                        let j = k / (plane as int);
                        assert(values@.subrange(j * plane, (j + 1) * plane) == replicate_padded(resized@[j]@, plan));
                        assert(j * plane + k % (plane as int) == k) by (nonlinear_arith)
                            requires k == plane * j + k % (plane as int);
                        assert((j + 1) * plane <= n * plane && j * plane >= 0 && (j + 1) * plane == j * plane + plane) by (nonlinear_arith)
                            requires 0 <= j < n, plane >= 0;
                        assert(values@[k] == values@.subrange(j * plane, (j + 1) * plane)[k % (plane as int)]);
                    }
                }
                let shape = vec![n, padded.height, padded.width, 3];
                assert(shape@ =~= seq![n as usize, padded.height, padded.width, 3usize]);
                TensorValues { values: out, shape, layout: Layout::NHWC }
            },
        };
        MarigoldPreprocessOutput::new(tensor, padding, plan.original_resolution, reshaped)
    }
}

/// A channel-last position inside a batch maps to a planar position inside it.
proof fn lemma_channel_last_source_below(o: int, channels: int, plane: int, batch: int)
    requires
        channels > 0,
        plane > 0,
        0 <= o < batch * channels * plane,
    ensures
        0 <= channel_last_source(o, channels, plane) < batch * channels * plane,
{
    lemma_split(o, channels);
    assert(o < (batch * plane) * channels) by (nonlinear_arith) requires o < batch * channels * plane;
    lemma_quotient_below(o, channels, batch * plane);
    let pixel = o / channels;
    lemma_split(pixel, plane);
    lemma_quotient_below(pixel, plane, batch);
    let item = pixel / plane;
    let channel = o % channels;
    let position = pixel % plane;
    assert(0 <= (item * channels + channel) * plane + position < batch * channels * plane) by (nonlinear_arith)
        requires 0 <= item < batch, 0 <= channel < channels, 0 <= position < plane;
}

/// The planar `[batch, channels, height, width]` dimensions of a Marigold output tensor
/// of `layout` and `shape`.
pub open spec fn marigold_nchw_dims(layout: Layout, shape: Seq<usize>) -> Option<(usize, usize, usize, usize)> {
    match layout {
        Layout::NCHW => Some((shape[0], shape[1], shape[2], shape[3])),
        Layout::NHWC => Some((shape[0], shape[3], shape[1], shape[2])),
        Layout::CHW => Some((1usize, shape[0], shape[1], shape[2])),
        Layout::HWC => Some((1usize, shape[2], shape[0], shape[1])),
        _ => None,
    }
}

/// The planar values of a Marigold output tensor: as stored for the planar layouts,
/// reordered from channel-last otherwise.
pub open spec fn marigold_nchw_values(layout: Layout, values: Seq<u32>, channels: int, plane: int) -> Seq<u32> {
    match layout {
        Layout::NHWC | Layout::HWC => Seq::new(values.len(), |o: int| values[channel_first_source(o, channels, plane)]),
        _ => values,
    }
}

impl MarigoldImageProcessor {
    /// Restores the samples of a Marigold dense output: removes the bottom and right
    /// `padding` from every sample of `tensor` (in any image layout) and returns each
    /// sample channel-last at the unpadded size, which the dense-map postprocessing then
    /// resizes back to the original resolution.
    pub fn unpadded_dense_samples(&self, tensor: &TensorValues, channels: usize, padding: Padding) -> (r: Result<(ImageSize, Vec<Vec<u32>>), ImageProcessorError>)
        requires
            tensor_values_wf(tensor.values@, tensor.shape@, tensor.layout),
        ensures
            channels == 0 ==> r == Err::<(ImageSize, Vec<Vec<u32>>), ImageProcessorError>(ImageProcessorError::Transform(
                TransformError::InvalidChannelDataLength { channels, actual: tensor.values@.len() as usize },
            )),
            channels > 0 && (padding.top != 0 || padding.left != 0) ==> r == Err::<(ImageSize, Vec<Vec<u32>>), ImageProcessorError>(
                ImageProcessorError::UnsupportedProcessorOption { field: "padding" },
            ),
            channels > 0 && padding.top == 0 && padding.left == 0 ==> match marigold_nchw_dims(tensor.layout, tensor.shape@) {
                None => r == Err::<(ImageSize, Vec<Vec<u32>>), ImageProcessorError>(ImageProcessorError::UnsupportedLayout(tensor.layout)),
                Some((n, c, h, w)) => match spec_marigold_unpad_size(channels, padding, tensor.values@.len(), c, h, w) {
                    Err(e) => r == Err::<(ImageSize, Vec<Vec<u32>>), ImageProcessorError>(e),
                    Ok(unpadded) => r matches Ok((size, samples)) && size == unpadded && samples@.len() == n && {
                        let planar = marigold_nchw_values(tensor.layout, tensor.values@, c as int, h * w);
                        forall|s: int| 0 <= s < n ==> {
                            &&& (#[trigger] samples@[s])@.len() == unpadded.height * unpadded.width * channels
                            &&& forall|o: int| 0 <= o < samples@[s]@.len() ==> #[trigger] samples@[s]@[o] == planar[unpadded_interleaved_source(
                                o, s, channels as int, ImageSize { height: h, width: w }, unpadded,
                            )]
                        }
                    },
                },
            },
    {
        if channels == 0 {
            return Err(ImageProcessorError::Transform(TransformError::InvalidChannelDataLength { channels, actual: tensor.values.len() }));
        }
        if padding.top != 0 || padding.left != 0 {
            return Err(ImageProcessorError::UnsupportedProcessorOption { field: "padding" });
        }
        let shape = tensor.shape.as_slice();
        let values = tensor.values.as_slice();
        let count = values.len();
        proof {
            assert(count == values@.len());
            if shape@.len() >= 3 {
                assert(shape@[0] > 0 && shape@[1] > 0 && shape@[2] > 0);
            }
            if shape@.len() >= 4 {
                assert(shape@[3] > 0);
            }
        }
        let (n, c, h, w, planar) = match tensor.layout {
            Layout::NCHW => (shape[0], shape[1], shape[2], shape[3], copy_u32(values)),
            Layout::CHW => (1usize, shape[0], shape[1], shape[2], copy_u32(values)),
            Layout::NHWC => {
                assert(shape@[0] * shape@[1] * shape@[2] * shape@[3] == shape@[0] * shape@[3] * (shape@[1] * shape@[2])
                    && shape@[1] * shape@[2] > 0 && shape@[1] * shape@[2] <= values@.len()) by (nonlinear_arith)
                    requires values@.len() == shape@[0] * shape@[1] * shape@[2] * shape@[3],
                        shape@[0] > 0, shape@[1] > 0, shape@[2] > 0, shape@[3] > 0;
                let planar = to_channel_first(values, shape[0], shape[3], shape[1] * shape[2]);
                assert(planar@ =~= marigold_nchw_values(tensor.layout, tensor.values@, shape@[3] as int, shape@[1] * shape@[2]));
                (shape[0], shape[3], shape[1], shape[2], planar)
            },
            Layout::HWC => {
                assert(shape@[0] * shape@[1] * shape@[2] == 1 * shape@[2] * (shape@[0] * shape@[1])
                    && shape@[0] * shape@[1] > 0 && shape@[0] * shape@[1] <= values@.len()) by (nonlinear_arith)
                    requires values@.len() == shape@[0] * shape@[1] * shape@[2], shape@[0] > 0, shape@[1] > 0, shape@[2] > 0;
                let planar = to_channel_first(values, 1, shape[2], shape[0] * shape[1]);
                assert(planar@ =~= marigold_nchw_values(tensor.layout, tensor.values@, shape@[2] as int, shape@[0] * shape@[1]));
                (1usize, shape[2], shape[0], shape[1], planar)
            },
            _ => return Err(ImageProcessorError::UnsupportedLayout(tensor.layout)),
        };
        proof {
            assert(values@.len() == n * c * (h * w)) by (nonlinear_arith)
                requires
                    tensor.layout == Layout::NCHW ==> values@.len() == shape@[0] * shape@[1] * shape@[2] * shape@[3]
                        && n == shape@[0] && c == shape@[1] && h == shape@[2] && w == shape@[3],
                    tensor.layout == Layout::NHWC ==> values@.len() == shape@[0] * shape@[1] * shape@[2] * shape@[3]
                        && n == shape@[0] && c == shape@[3] && h == shape@[1] && w == shape@[2],
                    tensor.layout == Layout::CHW ==> values@.len() == shape@[0] * shape@[1] * shape@[2]
                        && n == 1 && c == shape@[0] && h == shape@[1] && w == shape@[2],
                    tensor.layout == Layout::HWC ==> values@.len() == shape@[0] * shape@[1] * shape@[2]
                        && n == 1 && c == shape@[2] && h == shape@[0] && w == shape@[1],
                    tensor.layout == Layout::NCHW || tensor.layout == Layout::NHWC || tensor.layout == Layout::CHW
                        || tensor.layout == Layout::HWC;
            assert(planar@ == marigold_nchw_values(tensor.layout, tensor.values@, c as int, h * w));
        }
        let unpadded = match marigold_unpad_size(channels, padding, values.len(), c, h, w) {
            Ok(s) => s,
            Err(e) => return Err(e),
        };
        match marigold_unpadded_samples(planar.as_slice(), n, c, h, w, channels, padding) {
            Ok(samples) => Ok((unpadded, samples)),
            Err(e) => Err(e),
        }
    }
}

fn copy_u32(values: &[u32]) -> (r: Vec<u32>)
    ensures
        r@ == values@,
{
    let mut out: Vec<u32> = Vec::new();
    let mut i: usize = 0;
    while i < values.len()
        invariant
            i <= values@.len(),
            out@ == values@.take(i as int),
        decreases values@.len() - i,
    {
        out.push(values[i]);
        i = i + 1;
        assert(out@ =~= values@.take(i as int));
    }
    assert(values@.take(i as int) =~= values@);
    out
}
} // verus!
