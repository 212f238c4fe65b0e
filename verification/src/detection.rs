//! DETR and SAM family configurations.

use vstd::prelude::*;

use crate::indexing::{lemma_quotient_below, lemma_split};

use crate::generic::{
    config_is, default_rescale_factor, fixed_image_processor_config, imagenet_mean, imagenet_std,
    sam_image_mean, sam_image_std, spec_default_rescale_factor, spec_imagenet_mean, spec_imagenet_std,
    spec_sam_image_mean, spec_sam_image_std, spec_unit_rescale_factor, unit_rescale_factor,
    FixedImageProcessorSpec, ImageProcessorConfig,
};
use crate::errors::{ImageProcessorError, TensorError, TransformError};
use crate::geometry::{
    full_pixel_mask, mask_value_at, padded_batch_target_for_sizes, pixel_mask_for_valid_sizes, spec_image_size_new,
    spec_padded_batch_target_for_sizes, spec_validate_padding_target, spec_validate_padding_targets, square_size,
    validate_padding_target, validate_padding_targets_ok_iff_all_fit, fits_inside, mask_overflows, ImageSize,
};
use crate::layout::{
    spec_batched_layout_for_image_layout, spec_video_layout_for_image_layout,
    video_layout_for_image_layout, ImageLayout, VideoLayout,
};
use crate::recipe::{
    normalization_recipe, normalization_recipe_is, ProcessorRecipe, RecipeImageSizeSource, RecipePostprocess, RecipeResize,
    RecipeStage,
};
use crate::settings::{
    resize_decision_for_parts, BatchExecution, ImageDecodeBackend, PixelFormat, ResizeDecision,
    ResizeFilter, ResizeMode, ResizeParity,
};

verus! {

/// Aspect-preserving resize target with an optional longest-edge cap.
#[derive(Clone, Copy, Debug, PartialEq, Eq, Structural)]
pub struct ShortestEdgeResizeConfig {
    /// Target size of the shorter image edge.
    pub shortest_edge: usize,
    /// Optional maximum size of the longer image edge.
    pub longest_edge: Option<usize>,
}

impl ShortestEdgeResizeConfig {
    /// Creates a shortest-edge resize target; both edges must be non-zero.
    pub fn new(shortest_edge: usize, longest_edge: Option<usize>) -> (r: Option<ShortestEdgeResizeConfig>)
        ensures
            (shortest_edge == 0 || longest_edge == Some(0usize)) ==> r is None,
            !(shortest_edge == 0 || longest_edge == Some(0usize)) ==> r == Some(ShortestEdgeResizeConfig { shortest_edge, longest_edge }),
    {
        if shortest_edge == 0 {
            return None;
        }
        match longest_edge {
            Some(0) => None,
            _ => Some(ShortestEdgeResizeConfig { shortest_edge, longest_edge }),
        }
    }
}

impl Default for ShortestEdgeResizeConfig {
    fn default() -> (r: Self)
        ensures
            r == (ShortestEdgeResizeConfig { shortest_edge: 800, longest_edge: Some(1333) }),
    {
        ShortestEdgeResizeConfig { shortest_edge: 800, longest_edge: Some(1333) }
    }
}

/// Configuration of DETR-style image preprocessing.
#[derive(Clone, Copy, Debug, PartialEq, Eq, Structural)]
pub struct DetrImageProcessorConfig {
    /// Fixed target size used by the generic tensor-stage conversion.
    pub image_size: ImageSize,
    /// Shortest-edge target used by the typed outputs.
    pub resize_size: ShortestEdgeResizeConfig,
    /// Whether typed outputs pad resized images into one batch tensor.
    pub do_pad: bool,
    /// Explicit padding target; batches otherwise pad to their largest size.
    pub pad_size: Option<ImageSize>,
    /// Rounds the padding target up to this divisor.
    pub pad_to_multiple: Option<usize>,
    /// Output axis order.
    pub output_layout: ImageLayout,
    /// Resize filter.
    pub resample: ResizeFilter,
    /// Resize parity policy.
    pub resize_parity: ResizeParity,
    /// Image decode backend.
    pub decode_backend: ImageDecodeBackend,
    /// Batch execution policy.
    pub batch_execution: BatchExecution,
}

impl Default for DetrImageProcessorConfig {
    fn default() -> (r: Self)
        ensures
            r == (DetrImageProcessorConfig {
                image_size: ImageSize { height: 800, width: 800 },
                resize_size: ShortestEdgeResizeConfig { shortest_edge: 800, longest_edge: Some(1333) },
                do_pad: true,
                pad_size: None,
                pad_to_multiple: None,
                output_layout: ImageLayout::ChannelsHeightWidth,
                resample: ResizeFilter::Bilinear,
                resize_parity: ResizeParity::Compatibility,
                decode_backend: ImageDecodeBackend::ImageCrate,
                batch_execution: BatchExecution::Sequential,
            }),
    {
        DetrImageProcessorConfig {
            image_size: square_size(800),
            resize_size: ShortestEdgeResizeConfig::default(),
            do_pad: true,
            pad_size: None,
            pad_to_multiple: None,
            output_layout: ImageLayout::ChannelsHeightWidth,
            resample: ResizeFilter::Bilinear,
            resize_parity: ResizeParity::Compatibility,
            decode_backend: ImageDecodeBackend::ImageCrate,
            batch_execution: BatchExecution::default(),
        }
    }
}

/// The generic config of DETR: fixed `image_size`, rescale by `1 / 255`, ImageNet
/// normalization, RGB input.
pub open spec fn detr_generic_config(c: DetrImageProcessorConfig, r: ImageProcessorConfig) -> bool {
    config_is(
        r,
        true,
        Some(c.image_size.height),
        Some(c.image_size.width),
        ResizeMode::Default,
        c.resample,
        c.resize_parity,
        c.decode_backend,
        c.batch_execution,
        Some(PixelFormat::Rgb8),
        true,
        spec_default_rescale_factor(),
        true,
        spec_imagenet_mean(),
        spec_imagenet_std(),
        false,
        spec_batched_layout_for_image_layout(c.output_layout),
    )
}

impl DetrImageProcessorConfig {
    /// Returns the image output axis order.
    pub fn output_image_layout(&self) -> (r: ImageLayout)
        ensures
            r == self.output_layout,
    {
        self.output_layout
    }

    /// Returns the video output axis order implied by `output_layout`.
    pub fn output_video_layout(&self) -> (r: VideoLayout)
        ensures
            r == spec_video_layout_for_image_layout(self.output_layout),
    {
        video_layout_for_image_layout(self.output_layout)
    }

    /// Returns the resize decision implied by `resample` and `resize_parity`.
    pub fn resize_decision(&self) -> (r: ResizeDecision)
        ensures
            r == (ResizeDecision { filter: self.resample, parity: self.resize_parity }),
    {
        resize_decision_for_parts(self.resample, self.resize_parity)
    }

    /// Lowers this config to the generic tensor-stage config.
    pub fn image_processor_config(&self) -> (r: ImageProcessorConfig)
        ensures
            detr_generic_config(*self, r),
    {
        fixed_image_processor_config(FixedImageProcessorSpec {
            image_size: self.image_size,
            output_layout: self.output_layout,
            resize_mode: ResizeMode::Default,
            resample: self.resample,
            resize_parity: self.resize_parity,
            decode_backend: self.decode_backend,
            batch_execution: self.batch_execution,
            do_rescale: true,
            rescale_factor: default_rescale_factor(),
            do_normalize: true,
            image_mean: imagenet_mean(),
            image_std: imagenet_std(),
        })
    }
}

/// Configuration of SAM-style image preprocessing.
#[derive(Clone, Copy, Debug, PartialEq, Eq, Structural)]
pub struct SamImageProcessorConfig {
    /// Target image size.
    pub image_size: ImageSize,
    /// Output axis order.
    pub output_layout: ImageLayout,
    /// Resize filter.
    pub resample: ResizeFilter,
    /// Resize parity policy.
    pub resize_parity: ResizeParity,
    /// Image decode backend.
    pub decode_backend: ImageDecodeBackend,
    /// Batch execution policy.
    pub batch_execution: BatchExecution,
}

impl Default for SamImageProcessorConfig {
    fn default() -> (r: Self)
        ensures
            r == (SamImageProcessorConfig {
                image_size: ImageSize { height: 1024, width: 1024 },
                output_layout: ImageLayout::ChannelsHeightWidth,
                resample: ResizeFilter::Bilinear,
                resize_parity: ResizeParity::Compatibility,
                decode_backend: ImageDecodeBackend::ImageCrate,
                batch_execution: BatchExecution::Sequential,
            }),
    {
        SamImageProcessorConfig {
            image_size: square_size(1024),
            output_layout: ImageLayout::ChannelsHeightWidth,
            resample: ResizeFilter::Bilinear,
            resize_parity: ResizeParity::Compatibility,
            decode_backend: ImageDecodeBackend::ImageCrate,
            batch_execution: BatchExecution::default(),
        }
    }
}

/// The generic config of SAM: fixed `image_size`, no rescale, normalization by the SAM
/// raw-pixel statistics, RGB input.
pub open spec fn sam_generic_config(c: SamImageProcessorConfig, r: ImageProcessorConfig) -> bool {
    config_is(
        r,
        true,
        Some(c.image_size.height),
        Some(c.image_size.width),
        ResizeMode::Default,
        c.resample,
        c.resize_parity,
        c.decode_backend,
        c.batch_execution,
        Some(PixelFormat::Rgb8),
        false,
        spec_unit_rescale_factor(),
        true,
        spec_sam_image_mean(),
        spec_sam_image_std(),
        false,
        spec_batched_layout_for_image_layout(c.output_layout),
    )
}

impl SamImageProcessorConfig {
    /// Returns the image output axis order.
    pub fn output_image_layout(&self) -> (r: ImageLayout)
        ensures
            r == self.output_layout,
    {
        self.output_layout
    }

    /// Returns the video output axis order implied by `output_layout`.
    pub fn output_video_layout(&self) -> (r: VideoLayout)
        ensures
            r == spec_video_layout_for_image_layout(self.output_layout),
    {
        video_layout_for_image_layout(self.output_layout)
    }

    /// Returns the resize decision implied by `resample` and `resize_parity`.
    pub fn resize_decision(&self) -> (r: ResizeDecision)
        ensures
            r == (ResizeDecision { filter: self.resample, parity: self.resize_parity }),
    {
        resize_decision_for_parts(self.resample, self.resize_parity)
    }

    /// Lowers this config to the generic tensor-stage config.
    pub fn image_processor_config(&self) -> (r: ImageProcessorConfig)
        ensures
            sam_generic_config(*self, r),
    {
        fixed_image_processor_config(FixedImageProcessorSpec {
            image_size: self.image_size,
            output_layout: self.output_layout,
            resize_mode: ResizeMode::Default,
            resample: self.resample,
            resize_parity: self.resize_parity,
            decode_backend: self.decode_backend,
            batch_execution: self.batch_execution,
            do_rescale: false,
            rescale_factor: unit_rescale_factor(),
            do_normalize: true,
            image_mean: sam_image_mean(),
            image_std: sam_image_std(),
        })
    }

    /// Returns the longest-edge resize target of SAM: the larger of the configured
    /// height and width.
    pub fn longest_edge(&self) -> (r: usize)
        ensures
            r == if self.image_size.height >= self.image_size.width { self.image_size.height } else { self.image_size.width },
    {
        if self.image_size.height >= self.image_size.width {
            self.image_size.height
        } else {
            self.image_size.width
        }
    }
}

/// The value at position `o` of one sample zero-padded from `source` to
/// `target` size: for channel-first samples `o` enumerates channels, rows
/// and columns; for channel-last samples rows, columns and channels. Inside
/// the source the value comes from the same channel, row and column; outside
/// it is `None`, standing for the padding value.
pub open spec fn spatial_pad_source(o: int, channels: int, source: ImageSize, target: ImageSize, layout: ImageLayout) -> Option<int> {
    let (channel, y, x) = match layout {
        ImageLayout::ChannelsHeightWidth => {
            let plane = target.height * target.width;
            let within = o % plane;
            (o / plane, within / (target.width as int), within % (target.width as int))
        },
        ImageLayout::HeightWidthChannels => {
            let pixel = o / channels;
            (o % channels, pixel / (target.width as int), pixel % (target.width as int))
        },
    };
    if y < source.height && x < source.width {
        match layout {
            ImageLayout::ChannelsHeightWidth => Some(channel * (source.height * source.width) + y * source.width + x),
            ImageLayout::HeightWidthChannels => Some((y * source.width + x) * channels + channel),
        }
    } else {
        None
    }
}

/// Bounds of the decomposition of a padded sample position.
proof fn lemma_spatial_pad_source(o: int, channels: int, source: ImageSize, target: ImageSize, layout: ImageLayout)
    requires
        channels > 0,
        target.height > 0,
        target.width > 0,
        source.height <= target.height,
        source.width <= target.width,
        0 <= o < channels * (target.height * target.width),
    ensures
        spatial_pad_source(o, channels, source, target, layout) matches Some(i) ==> 0 <= i < channels * (
        source.height * source.width),
        ({
            let plane = target.height * target.width;
            &&& 0 <= o / plane < channels
            &&& 0 <= (o % plane) / (target.width as int) < target.height
            &&& 0 <= (o % plane) % (target.width as int) < target.width
            &&& 0 <= o % channels < channels
            &&& 0 <= (o / channels) / (target.width as int) < target.height
            &&& 0 <= (o / channels) % (target.width as int) < target.width
        }),
{
    let plane = target.height * target.width;
    assert(plane > 0) by (nonlinear_arith)
        requires
            target.height > 0,
            target.width > 0,
            plane == target.height * target.width,
    ;
    assert(o < plane * channels && o < plane * channels) by (nonlinear_arith)
        requires
            o < channels * plane,
    ;
    lemma_split(o, plane);
    lemma_quotient_below(o, plane, channels);
    let within = o % plane;
    lemma_split(within, target.width as int);
    lemma_quotient_below(within, target.width as int, target.height as int);
    lemma_split(o, channels);
    lemma_quotient_below(o, channels, plane);
    let pixel = o / channels;
    lemma_split(pixel, target.width as int);
    lemma_quotient_below(pixel, target.width as int, target.height as int);
    let source_plane = source.height * source.width;
    match layout {
        ImageLayout::ChannelsHeightWidth => {
            let channel = o / plane;
            let y = within / (target.width as int);
            let x = within % (target.width as int);
            if y < source.height && x < source.width {
                assert(0 <= channel * source_plane + y * source.width + x < channels * source_plane) by (nonlinear_arith)
                    requires
                        0 <= channel < channels,
                        0 <= y < source.height,
                        0 <= x < source.width,
                        source_plane == source.height * source.width,
                ;
            }
        },
        ImageLayout::HeightWidthChannels => {
            let channel = o % channels;
            let y = pixel / (target.width as int);
            let x = pixel % (target.width as int);
            if y < source.height && x < source.width {
                assert(0 <= (y * source.width + x) * channels + channel < channels * source_plane) by (nonlinear_arith)
                    requires
                        0 <= channel < channels,
                        0 <= y < source.height,
                        0 <= x < source.width,
                        source_plane == source.height * source.width,
                ;
            }
        },
    }
}

/// Zero-pads one sample of `channels` channels at the bottom and right from
/// `source` to `target` size, in the given axis order: values inside the
/// source keep their channel, row and column, and the rest are `zero`.
pub fn pad_spatial_sample<T: Copy>(values: &[T], channels: usize, source: ImageSize, target: ImageSize, layout: ImageLayout, zero: T) -> (r: Vec<T>)
    requires
        channels > 0,
        target.height > 0,
        target.width > 0,
        source.height <= target.height,
        source.width <= target.width,
        values@.len() == channels * (source.height * source.width),
        channels * (target.height * target.width) <= usize::MAX,
    ensures
        r@.len() == channels * (target.height * target.width),
        forall|o: int|
            0 <= o < r@.len() ==> #[trigger] r@[o] == match spatial_pad_source(o, channels as int, source, target, layout) {
                Some(i) => values@[i],
                None => zero,
            },
{
    let n = values.len();
    proof {
        assert(target.height * target.width <= channels * (target.height * target.width) && source.height
            * source.width <= channels * (source.height * source.width)) by (nonlinear_arith)
            requires
                channels > 0,
                target.height > 0,
                target.width > 0,
        ;
    }
    let plane = target.height * target.width;
    let source_plane = source.height * source.width;
    let total = channels * plane;
    let mut padded: Vec<T> = Vec::new();
    let mut o: usize = 0;
    while o < total
        invariant
            padded@.len() == o,
            o <= total,
            total == channels * (target.height * target.width),
            plane == target.height * target.width,
            source_plane == source.height * source.width,
            n == values@.len(),
            n == channels * (source.height * source.width),
            channels > 0,
            target.height > 0,
            target.width > 0,
            source.height <= target.height,
            source.width <= target.width,
            forall|i: int|
                0 <= i < o ==> #[trigger] padded@[i] == match spatial_pad_source(i, channels as int, source, target, layout) {
                    Some(j) => values@[j],
                    None => zero,
                },
        decreases total - o,
    {
        proof {
            lemma_spatial_pad_source(o as int, channels as int, source, target, layout);
        }
        let (channel, y, x) = match layout {
            ImageLayout::ChannelsHeightWidth => {
                let within = o % plane;
                (o / plane, within / target.width, within % target.width)
            },
            ImageLayout::HeightWidthChannels => {
                let pixel = o / channels;
                (o % channels, pixel / target.width, pixel % target.width)
            },
        };
        if y < source.height && x < source.width {
            let index = match layout {
                ImageLayout::ChannelsHeightWidth => {
                    proof {
                        assert(0 <= channel * source_plane <= channel * source_plane + y * source.width <= channel
                            * source_plane + y * source.width + x) by (nonlinear_arith)
                            requires
                                channel >= 0,
                                source_plane >= 0,
                                y >= 0,
                                x >= 0,
                                source.width >= 0,
                        ;
                    }
                    channel * source_plane + y * source.width + x
                },
                ImageLayout::HeightWidthChannels => {
                    proof {
                        assert(0 <= y * source.width <= y * source.width + x <= (y * source.width + x) * channels
                            <= (y * source.width + x) * channels + channel) by (nonlinear_arith)
                            requires
                                channels >= 1,
                                channel >= 0,
                                y >= 0,
                                x >= 0,
                                source.width >= 0,
                        ;
                    }
                    (y * source.width + x) * channels + channel
                },
            };
            padded.push(values[index]);
        } else {
            padded.push(zero);
        }
        o = o + 1;
    }
    padded
}


/// Copies `len` values of `values` starting at `start`.
pub fn copy_range<T: Copy>(values: &[T], start: usize, len: usize) -> (r: Vec<T>)
    requires
        start + len <= values@.len(),
    ensures
        r@ == values@.subrange(start as int, start + len),
{
    let mut out: Vec<T> = Vec::new();
    let mut k: usize = 0;
    let total = values.len();
    while k < len
        invariant
            k <= len,
            total == values@.len(),
            start + len <= values@.len(),
            out@ == values@.subrange(start as int, start + k),
        decreases len - k,
    {
        out.push(values[start + k]);
        k = k + 1;
        assert(out@ =~= values@.subrange(start as int, start + k));
    }
    out
}

/// The SAM mask batch check: a non-empty batch with one reshaped input size per image,
/// at least one mask per image, sizes whose products fit `usize`, and exactly
/// `batch * masks_per_image * mask_height * mask_width` logits. On success it gives the
/// values per mask and per image.
pub open spec fn spec_sam_mask_layout(
    mask_size: ImageSize,
    masks_per_image: usize,
    batch: nat,
    reshaped_count: nat,
    logits_len: nat,
) -> Result<(usize, usize), ImageProcessorError> {
    let mask_pixels = mask_size.height * mask_size.width;
    let per_sample = masks_per_image * mask_pixels;
    let expected = batch * per_sample;
    if batch == 0 {
        Err(ImageProcessorError::EmptyBatch)
    } else if reshaped_count != batch {
        Err(ImageProcessorError::IncompatibleBatchShapes)
    } else if masks_per_image == 0 {
        Err(ImageProcessorError::Transform(TransformError::EmptyMaskBatch))
    } else if mask_pixels > usize::MAX || per_sample > usize::MAX || expected > usize::MAX {
        Err(ImageProcessorError::Transform(TransformError::ImageSizeOverflow))
    } else if logits_len != expected {
        Err(ImageProcessorError::Transform(TransformError::InvalidBufferLength {
            expected: expected as usize,
            actual: logits_len as usize,
        }))
    } else {
        Ok((mask_pixels as usize, per_sample as usize))
    }
}

/// The mask logits of one image of a SAM batch, with the sizes its masks are restored to.
#[derive(Clone, Debug)]
pub struct SamMaskSample<T> {
    /// Size of the image before preprocessing.
    pub original_size: ImageSize,
    /// Size of the image after its aspect-preserving resize.
    pub reshaped_input_size: ImageSize,
    /// The low-resolution logits of each mask, row-major.
    pub mask_logits: Vec<Vec<T>>,
}

/// Checks a flattened SAM mask batch and splits it into images and masks: image `s`,
/// mask `m` holds the `mask_height * mask_width` logits that start at
/// `(s * masks_per_image + m) * mask_height * mask_width`.
pub fn sam_mask_samples<T: Copy>(
    mask_logits: &[T],
    mask_size: ImageSize,
    masks_per_image: usize,
    original_sizes: &[ImageSize],
    reshaped_input_sizes: &[ImageSize],
) -> (r: Result<Vec<SamMaskSample<T>>, ImageProcessorError>)
    ensures
        match spec_sam_mask_layout(mask_size, masks_per_image, original_sizes@.len(), reshaped_input_sizes@.len(), mask_logits@.len()) {
            Err(e) => r == Err::<Vec<SamMaskSample<T>>, ImageProcessorError>(e),
            Ok((mask_pixels, per_sample)) => r matches Ok(samples) && samples@.len() == original_sizes@.len()
                && forall|s: int| 0 <= s < samples@.len() ==> {
                    &&& (#[trigger] samples@[s]).original_size == original_sizes@[s]
                    &&& samples@[s].reshaped_input_size == reshaped_input_sizes@[s]
                    &&& samples@[s].mask_logits@.len() == masks_per_image
                    &&& forall|m: int| 0 <= m < masks_per_image ==> (#[trigger] samples@[s].mask_logits@[m])@
                        == mask_logits@.subrange(s * per_sample + m * mask_pixels, s * per_sample + (m + 1) * mask_pixels)
                },
        },
{
    let batch = original_sizes.len();
    if batch == 0 {
        return Err(ImageProcessorError::EmptyBatch);
    }
    if reshaped_input_sizes.len() != batch {
        return Err(ImageProcessorError::IncompatibleBatchShapes);
    }
    if masks_per_image == 0 {
        return Err(ImageProcessorError::Transform(TransformError::EmptyMaskBatch));
    }
    let mask_pixels = match mask_size.height.checked_mul(mask_size.width) {
        Some(v) => v,
        None => return Err(ImageProcessorError::Transform(TransformError::ImageSizeOverflow)),
    };
    let per_sample = match masks_per_image.checked_mul(mask_pixels) {
        Some(v) => v,
        None => return Err(ImageProcessorError::Transform(TransformError::ImageSizeOverflow)),
    };
    let expected = match batch.checked_mul(per_sample) {
        Some(v) => v,
        None => return Err(ImageProcessorError::Transform(TransformError::ImageSizeOverflow)),
    };
    if mask_logits.len() != expected {
        return Err(ImageProcessorError::Transform(TransformError::InvalidBufferLength {
            expected,
            actual: mask_logits.len(),
        }));
    }
    let mut samples: Vec<SamMaskSample<T>> = Vec::new();
    let mut s: usize = 0;
    while s < batch
        invariant
            batch == original_sizes@.len(),
            batch == reshaped_input_sizes@.len(),
            mask_pixels == mask_size.height * mask_size.width,
            per_sample == masks_per_image * mask_pixels,
            mask_logits@.len() == batch * per_sample,
            batch * per_sample <= usize::MAX,
            s <= batch,
            samples@.len() == s,
            forall|t: int| 0 <= t < s ==> {
                &&& (#[trigger] samples@[t]).original_size == original_sizes@[t]
                &&& samples@[t].reshaped_input_size == reshaped_input_sizes@[t]
                &&& samples@[t].mask_logits@.len() == masks_per_image
                &&& forall|m: int| 0 <= m < masks_per_image ==> (#[trigger] samples@[t].mask_logits@[m])@
                    == mask_logits@.subrange(t * per_sample + m * mask_pixels, t * per_sample + (m + 1) * mask_pixels)
            },
        decreases batch - s,
    {
        assert((s + 1) * per_sample <= batch * per_sample) by (nonlinear_arith)
            requires s < batch, per_sample >= 0;
        assert(s * per_sample <= (s + 1) * per_sample) by (nonlinear_arith)
            requires per_sample >= 0;
        let sample_start = s * per_sample;
        let mut masks: Vec<Vec<T>> = Vec::new();
        let mut m: usize = 0;
        while m < masks_per_image
            invariant
                mask_pixels == mask_size.height * mask_size.width,
                per_sample == masks_per_image * mask_pixels,
                mask_logits@.len() == batch * per_sample,
                batch * per_sample <= usize::MAX,
                s < batch,
                sample_start == s * per_sample,
                (s + 1) * per_sample <= batch * per_sample,
                m <= masks_per_image,
                masks@.len() == m,
                forall|j: int| 0 <= j < m ==> (#[trigger] masks@[j])@
                    == mask_logits@.subrange(s * per_sample + j * mask_pixels, s * per_sample + (j + 1) * mask_pixels),
            decreases masks_per_image - m,
        {
            assert((m + 1) * mask_pixels <= masks_per_image * mask_pixels) by (nonlinear_arith)
                requires m < masks_per_image, mask_pixels >= 0;
            assert(s * per_sample + per_sample == (s + 1) * per_sample) by (nonlinear_arith);
            assert((m + 1) * mask_pixels == m * mask_pixels + mask_pixels) by (nonlinear_arith);
            let start = sample_start + m * mask_pixels;
            let mask = copy_range(mask_logits, start, mask_pixels);
            masks.push(mask);
            m = m + 1;
        }
        samples.push(SamMaskSample {
            original_size: original_sizes[s],
            reshaped_input_size: reshaped_input_sizes[s],
            mask_logits: masks,
        });
        s = s + 1;
    }
    Ok(samples)
}

/// The DETR detection batch check: a non-empty batch, a query count that divides evenly
/// among the images, products that fit `usize`, and exactly
/// `box_count * num_labels_with_background` logits. On success it gives the queries per
/// image and the logits per image.
pub open spec fn spec_detr_detection_layout(
    box_count: nat,
    num_labels_with_background: usize,
    batch: nat,
    logits_len: nat,
) -> Result<(usize, usize), ImageProcessorError> {
    let expected = box_count * num_labels_with_background;
    if batch == 0 {
        Err(ImageProcessorError::EmptyBatch)
    } else if box_count % batch != 0 {
        Err(ImageProcessorError::IncompatibleBatchShapes)
    } else if expected > usize::MAX {
        Err(ImageProcessorError::Tensor(TensorError::ShapeElementCountOverflow))
    } else if logits_len != expected {
        Err(ImageProcessorError::Transform(TransformError::InvalidBufferLength {
            expected: expected as usize,
            actual: logits_len as usize,
        }))
    } else {
        Ok(((box_count / batch) as usize, ((box_count / batch) * num_labels_with_background) as usize))
    }
}

/// The class logits and predicted boxes of one image of a DETR batch, with the size its
/// boxes are scaled to.
#[derive(Clone, Debug)]
pub struct DetrDetectionSample<L, B> {
    /// Size the normalized boxes are scaled to.
    pub target_size: ImageSize,
    /// Class logits, one row of `num_labels_with_background` per query.
    pub logits: Vec<L>,
    /// One predicted box per query.
    pub boxes: Vec<B>,
}

/// Checks a flattened DETR detection batch and splits it per image: image `s` holds
/// queries `s * q .. (s + 1) * q` and their logit rows, where `q` is the number of boxes
/// over the number of images.
pub fn detr_detection_samples<L: Copy, B: Copy>(
    logits: &[L],
    pred_boxes: &[B],
    num_labels_with_background: usize,
    target_sizes: &[ImageSize],
) -> (r: Result<Vec<DetrDetectionSample<L, B>>, ImageProcessorError>)
    ensures
        match spec_detr_detection_layout(pred_boxes@.len(), num_labels_with_background, target_sizes@.len(), logits@.len()) {
            Err(e) => r == Err::<Vec<DetrDetectionSample<L, B>>, ImageProcessorError>(e),
            Ok((queries, per_sample)) => r matches Ok(samples) && samples@.len() == target_sizes@.len()
                && forall|s: int| 0 <= s < samples@.len() ==> {
                    &&& (#[trigger] samples@[s]).target_size == target_sizes@[s]
                    &&& samples@[s].boxes@ == pred_boxes@.subrange(s * queries, (s + 1) * queries)
                    &&& samples@[s].logits@ == logits@.subrange(s * per_sample, (s + 1) * per_sample)
                },
        },
{
    let batch = target_sizes.len();
    if batch == 0 {
        return Err(ImageProcessorError::EmptyBatch);
    }
    let box_count = pred_boxes.len();
    if box_count % batch != 0 {
        return Err(ImageProcessorError::IncompatibleBatchShapes);
    }
    let expected = match box_count.checked_mul(num_labels_with_background) {
        Some(v) => v,
        None => return Err(ImageProcessorError::Tensor(TensorError::ShapeElementCountOverflow)),
    };
    if logits.len() != expected {
        return Err(ImageProcessorError::Transform(TransformError::InvalidBufferLength {
            expected,
            actual: logits.len(),
        }));
    }
    let queries = box_count / batch;
    assert(queries * batch == box_count) by (nonlinear_arith)
        requires queries == box_count / batch, box_count % batch == 0, batch > 0;
    assert(queries * num_labels_with_background <= box_count * num_labels_with_background) by (nonlinear_arith)
        requires queries * batch == box_count, batch > 0, queries >= 0, num_labels_with_background >= 0;
    let per_sample = queries * num_labels_with_background;
    assert(batch * per_sample == box_count * num_labels_with_background) by (nonlinear_arith)
        requires queries * batch == box_count, per_sample == queries * num_labels_with_background;
    let mut samples: Vec<DetrDetectionSample<L, B>> = Vec::new();
    let mut s: usize = 0;
    while s < batch
        invariant
            batch == target_sizes@.len(),
            pred_boxes@.len() == batch * queries,
            logits@.len() == batch * per_sample,
            batch * queries <= usize::MAX,
            batch * per_sample <= usize::MAX,
            s <= batch,
            samples@.len() == s,
            forall|t: int| 0 <= t < s ==> {
                &&& (#[trigger] samples@[t]).target_size == target_sizes@[t]
                &&& samples@[t].boxes@ == pred_boxes@.subrange(t * queries, (t + 1) * queries)
                &&& samples@[t].logits@ == logits@.subrange(t * per_sample, (t + 1) * per_sample)
            },
        decreases batch - s,
    {
        assert((s + 1) * queries <= batch * queries && s * queries + queries == (s + 1) * queries) by (nonlinear_arith)
            requires s < batch, queries >= 0;
        assert(s * queries <= (s + 1) * queries && s * per_sample <= (s + 1) * per_sample) by (nonlinear_arith)
            requires queries >= 0, per_sample >= 0;
        assert((s + 1) * per_sample <= batch * per_sample && s * per_sample + per_sample == (s + 1) * per_sample) by (nonlinear_arith)
            requires s < batch, per_sample >= 0;
        let boxes = copy_range(pred_boxes, s * queries, queries);
        let sample_logits = copy_range(logits, s * per_sample, per_sample);
        samples.push(DetrDetectionSample { target_size: target_sizes[s], logits: sample_logits, boxes });
        s = s + 1;
    }
    Ok(samples)
}

/// `0.5` as an `f32` bit pattern: the DETR score threshold of its recipe.
pub const DETR_RECIPE_THRESHOLD: u32 = 0x3F00_0000u32;

/// `1.0` as an `f32` bit pattern: the SAM rescale factor, unused since SAM does not rescale.
pub const SAM_RECIPE_RESCALE_FACTOR: u32 = 0x3F80_0000u32;

/// Whether `r` is the DETR recipe of `c`: RGB conversion and a shortest-edge resize with
/// the configured cap, then rescaling by `1/255` and ImageNet normalization, with
/// object-detection postprocessing of `logits` and `pred_boxes` at a 0.5 threshold on
/// caller-provided target sizes.
pub open spec fn detr_recipe_is(c: DetrImageProcessorConfig, r: ProcessorRecipe) -> bool {
    &&& normalization_recipe_is(
        r,
        "transformers.detr_image_processor",
        c.decode_backend,
        c.batch_execution,
        seq![
            RecipeStage::ConvertPixelFormat(PixelFormat::Rgb8),
            RecipeStage::Resize(RecipeResize::ShortestEdge {
                shortest_edge: c.resize_size.shortest_edge,
                longest_edge: c.resize_size.longest_edge,
                filter: c.resample,
                parity: c.resize_parity,
            }),
        ],
        c.output_layout,
        true,
        spec_default_rescale_factor(),
        true,
        spec_imagenet_mean(),
        spec_imagenet_std(),
    )
    &&& r.postprocess@ == seq![RecipePostprocess::ObjectDetection {
        logits: "logits",
        boxes: "pred_boxes",
        threshold: DETR_RECIPE_THRESHOLD,
        target_sizes: RecipeImageSizeSource::CallerProvided,
    }]
}

/// Whether `r` is the SAM recipe of `c`: RGB conversion and a longest-edge resize to the
/// larger configured dimension, then SAM normalization without rescaling, with
/// binary-mask postprocessing of `pred_masks` at a zero threshold on the recorded
/// original and resized sizes.
pub open spec fn sam_recipe_is(c: SamImageProcessorConfig, r: ProcessorRecipe) -> bool {
    &&& normalization_recipe_is(
        r,
        "transformers.sam_image_processor",
        c.decode_backend,
        c.batch_execution,
        seq![
            RecipeStage::ConvertPixelFormat(PixelFormat::Rgb8),
            RecipeStage::Resize(RecipeResize::LongestEdge {
                longest_edge: if c.image_size.height >= c.image_size.width { c.image_size.height } else { c.image_size.width },
                filter: c.resample,
                parity: c.resize_parity,
            }),
        ],
        c.output_layout,
        false,
        SAM_RECIPE_RESCALE_FACTOR,
        true,
        spec_sam_image_mean(),
        spec_sam_image_std(),
    )
    &&& r.postprocess@ == seq![RecipePostprocess::BinaryMasks {
        masks: "pred_masks",
        original_sizes: RecipeImageSizeSource::OriginalSizes,
        reshaped_input_sizes: RecipeImageSizeSource::ReshapedInputSizes,
        threshold: 0u32,
    }]
}

impl DetrImageProcessorConfig {
    /// Builds the declarative recipe of this configuration.
    pub fn processor_recipe(&self) -> (r: ProcessorRecipe)
        ensures
            detr_recipe_is(*self, r),
    {
        let leading = vec![
            RecipeStage::ConvertPixelFormat(PixelFormat::Rgb8),
            RecipeStage::Resize(RecipeResize::ShortestEdge {
                shortest_edge: self.resize_size.shortest_edge,
                longest_edge: self.resize_size.longest_edge,
                filter: self.resample,
                parity: self.resize_parity,
            }),
        ];
        let ghost lead = leading@;
        let recipe = normalization_recipe(
            "transformers.detr_image_processor",
            self.decode_backend,
            self.batch_execution,
            leading,
            self.output_layout,
            true,
            default_rescale_factor(),
            true,
            imagenet_mean(),
            imagenet_std(),
        );
        let post = vec![RecipePostprocess::ObjectDetection {
            logits: "logits",
            boxes: "pred_boxes",
            threshold: DETR_RECIPE_THRESHOLD,
            target_sizes: RecipeImageSizeSource::CallerProvided,
        }];
        assert(lead =~= seq![
            RecipeStage::ConvertPixelFormat(PixelFormat::Rgb8),
            RecipeStage::Resize(RecipeResize::ShortestEdge {
                shortest_edge: self.resize_size.shortest_edge,
                longest_edge: self.resize_size.longest_edge,
                filter: self.resample,
                parity: self.resize_parity,
            }),
        ]);
        let r = ProcessorRecipe { postprocess: post, ..recipe };
        assert(r.postprocess@ =~= seq![RecipePostprocess::ObjectDetection {
            logits: "logits",
            boxes: "pred_boxes",
            threshold: DETR_RECIPE_THRESHOLD,
            target_sizes: RecipeImageSizeSource::CallerProvided,
        }]);
        r
    }
}

impl SamImageProcessorConfig {
    /// Builds the declarative recipe of this configuration.
    pub fn processor_recipe(&self) -> (r: ProcessorRecipe)
        ensures
            sam_recipe_is(*self, r),
    {
        let longest = if self.image_size.height >= self.image_size.width { self.image_size.height } else { self.image_size.width };
        let leading = vec![
            RecipeStage::ConvertPixelFormat(PixelFormat::Rgb8),
            RecipeStage::Resize(RecipeResize::LongestEdge { longest_edge: longest, filter: self.resample, parity: self.resize_parity }),
        ];
        let ghost lead = leading@;
        let recipe = normalization_recipe(
            "transformers.sam_image_processor",
            self.decode_backend,
            self.batch_execution,
            leading,
            self.output_layout,
            false,
            SAM_RECIPE_RESCALE_FACTOR,
            true,
            sam_image_mean(),
            sam_image_std(),
        );
        let post = vec![RecipePostprocess::BinaryMasks {
            masks: "pred_masks",
            original_sizes: RecipeImageSizeSource::OriginalSizes,
            reshaped_input_sizes: RecipeImageSizeSource::ReshapedInputSizes,
            threshold: 0u32,
        }];
        assert(lead =~= seq![
            RecipeStage::ConvertPixelFormat(PixelFormat::Rgb8),
            RecipeStage::Resize(RecipeResize::LongestEdge { longest_edge: longest, filter: self.resample, parity: self.resize_parity }),
        ]);
        let r = ProcessorRecipe { postprocess: post, ..recipe };
        assert(r.postprocess@ =~= seq![RecipePostprocess::BinaryMasks {
            masks: "pred_masks",
            original_sizes: RecipeImageSizeSource::OriginalSizes,
            reshaped_input_sizes: RecipeImageSizeSource::ReshapedInputSizes,
            threshold: 0u32,
        }]);
        r
    }
}

/// One image of a DETR or SAM batch after its resize and tensor conversion: its sizes and
/// its `channels * height * width` values (`f32` bit patterns) of the resized size, in
/// the processor's output layout.
#[derive(Clone, Debug)]
pub struct PreparedImage {
    /// Size of the decoded image.
    pub original_size: ImageSize,
    /// Size after the aspect-preserving resize.
    pub reshaped_size: ImageSize,
    /// Channel count of `values`.
    pub channels: usize,
    /// Converted values of the resized image.
    pub values: Vec<u32>,
}

impl PreparedImage {
    /// Whether the image has a channel and `channels * height * width` values.
    pub open spec fn wf(&self) -> bool {
        &&& self.channels > 0
        &&& self.values@.len() == self.channels * (self.reshaped_size.height * self.reshaped_size.width)
    }
}

/// The per-image check of a padded batch from `start` on: each image must have the
/// batch's channel count and a non-empty size that fits the target.
pub open spec fn pad_check_from(images: Seq<PreparedImage>, target: ImageSize, channels: usize, start: int) -> Option<ImageProcessorError>
    decreases images.len() - start,
{
    if start < 0 || start >= images.len() {
        None
    } else if images[start].channels != channels {
        Some(ImageProcessorError::IncompatibleBatchShapes)
    } else {
        match spec_image_size_new(images[start].reshaped_size.height, images[start].reshaped_size.width) {
            Err(e) => Some(ImageProcessorError::Transform(e)),
            Ok(_) => match spec_validate_padding_target(target, images[start].reshaped_size) {
                Err(e) => Some(e),
                Ok(()) => pad_check_from(images, target, channels, start + 1),
            },
        }
    }
}

/// The error of padding a batch to `target`, if any: an empty batch, an element count
/// that overflows, or the first image that fails its check.
pub open spec fn spec_pad_batch_error(images: Seq<PreparedImage>, target: ImageSize) -> Option<ImageProcessorError> {
    if images.len() == 0 {
        Some(ImageProcessorError::EmptyBatch)
    } else {
        let n = images.len();
        let c = images[0].channels;
        if n * target.height > usize::MAX || n * target.height * target.width > usize::MAX
            || n * target.height * target.width * c > usize::MAX {
            Some(ImageProcessorError::Tensor(TensorError::ShapeElementCountOverflow))
        } else {
            pad_check_from(images, target, c, 0)
        }
    }
}

/// The values of `image` zero-padded at the bottom and right to `target` in `layout`.
pub open spec fn padded_sample(image: PreparedImage, target: ImageSize, layout: ImageLayout) -> Seq<u32> {
    Seq::new((image.channels * (target.height * target.width)) as nat, |o: int|
        match spatial_pad_source(o, image.channels as int, image.reshaped_size, target, layout) {
            Some(k) => image.values@[k],
            None => 0u32,
        })
}

/// The shape of a batched tensor of `n` images of `channels` channels and size `size`.
pub open spec fn batch_shape(n: nat, channels: usize, size: ImageSize, layout: ImageLayout) -> Seq<usize> {
    match layout {
        ImageLayout::ChannelsHeightWidth => seq![n as usize, channels, size.height, size.width],
        ImageLayout::HeightWidthChannels => seq![n as usize, size.height, size.width, channels],
    }
}

/// Whether `values` is the padded batch: image `i` occupies the `i`-th block of
/// `channels * target area` values, holding its values zero-padded to `target`.
pub open spec fn padded_batch_is(values: Seq<u32>, images: Seq<PreparedImage>, target: ImageSize, layout: ImageLayout) -> bool {
    let plane = images[0].channels * (target.height * target.width);
    &&& values.len() == images.len() * plane
    &&& forall|i: int| 0 <= i < images.len() ==>
        values.subrange(i * plane, (i + 1) * plane) == padded_sample(#[trigger] images[i], target, layout)
}

/// Pads every image of a batch to `target` with zeros at the bottom and right and
/// stacks them into one batch tensor in `layout`, returning the values and the shape.
pub fn pad_batch(images: &[PreparedImage], target: ImageSize, layout: ImageLayout) -> (r: Result<(Vec<u32>, Vec<usize>), ImageProcessorError>)
    requires
        forall|i: int| 0 <= i < images@.len() ==> (#[trigger] images@[i]).wf(),
    ensures
        match spec_pad_batch_error(images@, target) {
            Some(e) => r == Err::<(Vec<u32>, Vec<usize>), ImageProcessorError>(e),
            None => r matches Ok((values, shape)) && padded_batch_is(values@, images@, target, layout)
                && shape@ == batch_shape(images@.len(), images@[0].channels, target, layout),
        },
{
    if images.len() == 0 {
        return Err(ImageProcessorError::EmptyBatch);
    }
    let n = images.len();
    let channels = images[0].channels;
    let plane = match n.checked_mul(target.height) {
        Some(a) => match a.checked_mul(target.width) {
            Some(b) => match b.checked_mul(channels) {
                Some(_) => {
                    assert(target.height * target.width <= n * target.height * target.width
                        && channels * (target.height * target.width) <= n * target.height * target.width * channels) by (nonlinear_arith)
                        requires n >= 1, channels >= 0, target.height >= 0, target.width >= 0;
                    let area = target.height * target.width;
                    channels * area
                },
                None => return Err(ImageProcessorError::Tensor(TensorError::ShapeElementCountOverflow)),
            },
            None => return Err(ImageProcessorError::Tensor(TensorError::ShapeElementCountOverflow)),
        },
        None => return Err(ImageProcessorError::Tensor(TensorError::ShapeElementCountOverflow)),
    };
    assert(n * plane == n * target.height * target.width * channels) by (nonlinear_arith)
        requires plane == channels * (target.height * target.width);
    let mut i: usize = 0;
    while i < n
        invariant
            n == images@.len(),
            channels == images@[0].channels,
            i <= n,
            spec_pad_batch_error(images@, target) == pad_check_from(images@, target, channels, i as int),
            forall|j: int| 0 <= j < i ==> (#[trigger] images@[j]).channels == channels
                && images@[j].reshaped_size.height > 0 && images@[j].reshaped_size.width > 0
                && images@[j].reshaped_size.height <= target.height && images@[j].reshaped_size.width <= target.width,
            n * target.height * target.width * channels <= usize::MAX,
        decreases n - i,
    {
        let image = &images[i];
        if image.channels != channels {
            return Err(ImageProcessorError::IncompatibleBatchShapes);
        }
        match ImageSize::new(image.reshaped_size.height, image.reshaped_size.width) {
            Ok(_) => {},
            Err(e) => return Err(ImageProcessorError::Transform(e)),
        }
        match validate_padding_target(target, image.reshaped_size) {
            Ok(()) => {},
            Err(e) => return Err(e),
        }
        i = i + 1;
    }
    let mut values: Vec<u32> = Vec::new();
    let mut k: usize = 0;
    while k < n
        invariant
            n == images@.len(),
            n >= 1,
            channels == images@[0].channels,
            channels > 0,
            plane == channels * (target.height * target.width),
            n * plane <= usize::MAX,
            forall|j: int| 0 <= j < n ==> (#[trigger] images@[j]).wf(),
            forall|j: int| 0 <= j < n ==> (#[trigger] images@[j]).channels == channels
                && images@[j].reshaped_size.height > 0 && images@[j].reshaped_size.width > 0
                && images@[j].reshaped_size.height <= target.height && images@[j].reshaped_size.width <= target.width,
            k <= n,
            values@.len() == k * plane,
            forall|j: int| 0 <= j < k ==>
                values@.subrange(j * plane, (j + 1) * plane) == padded_sample(#[trigger] images@[j], target, layout),
        decreases n - k,
    {
        let image = &images[k];
        assert(images@[k as int].channels == channels);
        assert(plane <= n * plane && target.height > 0 && target.width > 0) by (nonlinear_arith)
            requires n >= 1, plane == channels * (target.height * target.width), channels > 0,
                images@[k as int].reshaped_size.height > 0, images@[k as int].reshaped_size.width > 0,
                images@[k as int].reshaped_size.height <= target.height, images@[k as int].reshaped_size.width <= target.width;
        let mut padded = pad_spatial_sample(&image.values, channels, image.reshaped_size, target, layout, 0u32);
        assert(padded@ =~= padded_sample(images@[k as int], target, layout));
        let ghost before = values@;
        values.append(&mut padded);
        assert((k + 1) * plane == k * plane + plane) by (nonlinear_arith);
        assert forall|j: int| 0 <= j < k + 1 implies
            values@.subrange(j * plane, (j + 1) * plane) == padded_sample(#[trigger] images@[j], target, layout) by {
            if j < k {
                assert((j + 1) * plane <= k * plane && j * plane >= 0 && (j + 1) * plane == j * plane + plane) by (nonlinear_arith)
                    requires j < k, j >= 0, plane >= 0;
                assert(before.len() == k * plane);
                assert(values@.subrange(j * plane, (j + 1) * plane) =~= before.subrange(j * plane, (j + 1) * plane));
            } else {
                assert(values@.subrange(j * plane, (j + 1) * plane) =~= padded_sample(images@[k as int], target, layout));
            }
        }
        k = k + 1;
    }
    let shape = match layout {
        ImageLayout::ChannelsHeightWidth => vec![n, channels, target.height, target.width],
        ImageLayout::HeightWidthChannels => vec![n, target.height, target.width, channels],
    };
    assert(shape@ =~= batch_shape(images@.len(), channels, target, layout));
    Ok((values, shape))
}

/// The resized sizes of a batch of prepared images.
pub open spec fn reshaped_sizes(images: Seq<PreparedImage>) -> Seq<ImageSize> {
    images.map_values(|image: PreparedImage| image.reshaped_size)
}

/// The original sizes of a batch of prepared images.
pub open spec fn original_sizes(images: Seq<PreparedImage>) -> Seq<ImageSize> {
    images.map_values(|image: PreparedImage| image.original_size)
}

/// Batched DETR or SAM processor output: values are `f32` bit patterns; the pixel mask
/// (DETR only) holds one for valid pixels and zero for padding.
#[derive(Clone, Debug)]
pub struct PaddedProcessorOutput {
    /// Batched pixel values.
    pub pixel_values: Vec<u32>,
    /// Shape of `pixel_values`.
    pub pixel_values_shape: Vec<usize>,
    /// `[batch, 1, height, width]` pixel mask, when the processor emits one.
    pub pixel_mask: Option<Vec<u8>>,
    /// Size of each decoded image.
    pub original_sizes: Vec<ImageSize>,
    /// Size of each image after its resize.
    pub reshaped_input_sizes: Vec<ImageSize>,
}

/// The canvas a DETR batch is brought to: the padding target when padding is on;
/// otherwise every image must share the first one's size, which is the canvas.
pub open spec fn spec_detr_canvas(c: DetrImageProcessorConfig, images: Seq<PreparedImage>) -> Result<ImageSize, ImageProcessorError> {
    if images.len() == 0 {
        Err(ImageProcessorError::EmptyBatch)
    } else if c.do_pad {
        spec_padded_batch_target_for_sizes(reshaped_sizes(images), c.pad_size, c.pad_to_multiple)
    } else if exists|i: int| 0 <= i < images.len() && (#[trigger] images[i]).reshaped_size != images[0].reshaped_size {
        Err(ImageProcessorError::IncompatibleBatchShapes)
    } else {
        Ok(images[0].reshaped_size)
    }
}

/// Whether `out` holds the padded batch of `images` on `canvas`, with the recorded sizes
/// and, when `mask` is set, the valid-pixel mask.
pub open spec fn padded_output_is(out: PaddedProcessorOutput, images: Seq<PreparedImage>, canvas: ImageSize, layout: ImageLayout, mask: bool) -> bool {
    &&& padded_batch_is(out.pixel_values@, images, canvas, layout)
    &&& out.pixel_values_shape@ == batch_shape(images.len(), images[0].channels, canvas, layout)
    &&& out.original_sizes@ == original_sizes(images)
    &&& out.reshaped_input_sizes@ == reshaped_sizes(images)
    &&& if mask {
        out.pixel_mask matches Some(m) && m@.len() == images.len() * canvas.height * canvas.width
            && forall|k: int| 0 <= k < m@.len() ==> m@[k] == mask_value_at(reshaped_sizes(images), canvas, k)
    } else {
        out.pixel_mask is None
    }
}

fn collect_sizes(images: &[PreparedImage]) -> (r: (Vec<ImageSize>, Vec<ImageSize>))
    ensures
        r.0@ == original_sizes(images@),
        r.1@ == reshaped_sizes(images@),
{
    let mut original: Vec<ImageSize> = Vec::new();
    let mut reshaped: Vec<ImageSize> = Vec::new();
    let mut i: usize = 0;
    while i < images.len()
        invariant
            i <= images@.len(),
            original@ == original_sizes(images@.take(i as int)),
            reshaped@ == reshaped_sizes(images@.take(i as int)),
        decreases images@.len() - i,
    {
        original.push(images[i].original_size);
        reshaped.push(images[i].reshaped_size);
        i = i + 1;
        assert(original@ =~= original_sizes(images@.take(i as int)));
        assert(reshaped@ =~= reshaped_sizes(images@.take(i as int)));
    }
    assert(images@.take(i as int) =~= images@);
    (original, reshaped)
}

/// DETR image processor.
#[derive(Clone, Debug)]
pub struct DetrImageProcessor {
    config: DetrImageProcessorConfig,
}

impl DetrImageProcessor {
    /// The configuration.
    pub closed spec fn spec_config(&self) -> DetrImageProcessorConfig {
        self.config
    }

    /// Creates a processor for `config`.
    pub fn new(config: DetrImageProcessorConfig) -> (r: Result<DetrImageProcessor, ImageProcessorError>)
        ensures
            r matches Ok(p) && p.spec_config() == config,
    {
        Ok(DetrImageProcessor { config })
    }

    /// Returns the configuration.
    pub fn config(&self) -> (r: &DetrImageProcessorConfig)
        ensures
            *r == self.spec_config(),
    {
        &self.config
    }

    /// Builds the DETR output of a batch of resized, converted images: the batch padded
    /// (with zeros at the bottom and right) to the padding target, or stacked when padding
    /// is off, with its valid-pixel mask and the original and resized sizes.
    pub fn preprocess_images_output(&self, images: &[PreparedImage]) -> (r: Result<PaddedProcessorOutput, ImageProcessorError>)
        requires
            forall|i: int| 0 <= i < images@.len() ==> (#[trigger] images@[i]).wf(),
        ensures
            match spec_detr_canvas(self.spec_config(), images@) {
                Err(e) => r == Err::<PaddedProcessorOutput, ImageProcessorError>(e),
                Ok(canvas) => match spec_pad_batch_error(images@, canvas) {
                    Some(e) => r == Err::<PaddedProcessorOutput, ImageProcessorError>(e),
                    None => r matches Ok(out) && padded_output_is(out, images@, canvas, self.spec_config().output_layout, true),
                },
            },
    {
        if images.len() == 0 {
            return Err(ImageProcessorError::EmptyBatch);
        }
        let (original, reshaped) = collect_sizes(images);
        let canvas = if self.config.do_pad {
            match padded_batch_target_for_sizes(reshaped.as_slice(), self.config.pad_size, self.config.pad_to_multiple) {
                Ok(t) => t,
                Err(e) => return Err(e),
            }
        } else {
            let first = images[0].reshaped_size;
            let mut i: usize = 0;
            while i < images.len()
                invariant
                    i <= images@.len(),
                    images@.len() > 0,
                    !self.spec_config().do_pad,
                    first == images@[0].reshaped_size,
                    forall|j: int| 0 <= j < i ==> (#[trigger] images@[j]).reshaped_size == first,
                decreases images@.len() - i,
            {
                let size = images[i].reshaped_size;
                if size.height != first.height || size.width != first.width {
                    assert((#[trigger] images@[i as int]).reshaped_size != images@[0].reshaped_size);
                    return Err(ImageProcessorError::IncompatibleBatchShapes);
                }
                i = i + 1;
            }
            first
        };
        let (values, shape) = match pad_batch(images, canvas, self.config.output_layout) {
            Ok(v) => v,
            Err(e) => return Err(e),
        };
        proof {
            validate_padding_targets_ok_iff_all_fit(canvas, reshaped@);
            if !self.config.do_pad {
                assert forall|i: int| 0 <= i < reshaped@.len() implies fits_inside(canvas, #[trigger] reshaped@[i]) by {
                    assert(reshaped@[i] == images@[i].reshaped_size);
                }
            }
            assert(images@.len() * canvas.height * canvas.width <= images@.len() * canvas.height * canvas.width * images@[0].channels
                && images@.len() * canvas.height <= images@.len() * canvas.height * canvas.width) by (nonlinear_arith)
                requires images@[0].channels > 0, canvas.width > 0, images@.len() >= 1;
        }
        let mask = match pixel_mask_for_valid_sizes(reshaped.as_slice(), canvas) {
            Ok(m) => m,
            Err(e) => return Err(e),
        };
        Ok(PaddedProcessorOutput {
            pixel_values: values,
            pixel_values_shape: shape,
            pixel_mask: Some(mask),
            original_sizes: original,
            reshaped_input_sizes: reshaped,
        })
    }

    /// Builds the DETR output of one resized, converted image.
    pub fn preprocess_image_output(&self, image: PreparedImage) -> (r: Result<PaddedProcessorOutput, ImageProcessorError>)
        requires
            image.wf(),
        ensures
            match spec_detr_canvas(self.spec_config(), seq![image]) {
                Err(e) => r == Err::<PaddedProcessorOutput, ImageProcessorError>(e),
                Ok(canvas) => match spec_pad_batch_error(seq![image], canvas) {
                    Some(e) => r == Err::<PaddedProcessorOutput, ImageProcessorError>(e),
                    None => r matches Ok(out) && padded_output_is(out, seq![image], canvas, self.spec_config().output_layout, true),
                },
            },
    {
        let images = vec![image];
        assert(images@ =~= seq![image]);
        self.preprocess_images_output(images.as_slice())
    }
}

/// SAM image processor.
#[derive(Clone, Debug)]
pub struct SamImageProcessor {
    config: SamImageProcessorConfig,
}

impl SamImageProcessor {
    /// The configuration.
    pub closed spec fn spec_config(&self) -> SamImageProcessorConfig {
        self.config
    }

    /// Creates a processor for `config`.
    pub fn new(config: SamImageProcessorConfig) -> (r: Result<SamImageProcessor, ImageProcessorError>)
        ensures
            r matches Ok(p) && p.spec_config() == config,
    {
        Ok(SamImageProcessor { config })
    }

    /// Returns the configuration.
    pub fn config(&self) -> (r: &SamImageProcessorConfig)
        ensures
            *r == self.spec_config(),
    {
        &self.config
    }

    /// Builds the SAM output of a batch of resized, converted images: the batch padded
    /// (with zeros at the bottom and right) to the configured image size, with the
    /// original and resized sizes.
    pub fn preprocess_images_output(&self, images: &[PreparedImage]) -> (r: Result<PaddedProcessorOutput, ImageProcessorError>)
        requires
            forall|i: int| 0 <= i < images@.len() ==> (#[trigger] images@[i]).wf(),
        ensures
            match spec_pad_batch_error(images@, self.spec_config().image_size) {
                Some(e) => r == Err::<PaddedProcessorOutput, ImageProcessorError>(e),
                None => r matches Ok(out) && padded_output_is(out, images@, self.spec_config().image_size, self.spec_config().output_layout, false),
            },
    {
        if images.len() == 0 {
            return Err(ImageProcessorError::EmptyBatch);
        }
        let (original, reshaped) = collect_sizes(images);
        let (values, shape) = match pad_batch(images, self.config.image_size, self.config.output_layout) {
            Ok(v) => v,
            Err(e) => return Err(e),
        };
        Ok(PaddedProcessorOutput {
            pixel_values: values,
            pixel_values_shape: shape,
            pixel_mask: None,
            original_sizes: original,
            reshaped_input_sizes: reshaped,
        })
    }

    /// Builds the SAM output of one resized, converted image.
    pub fn preprocess_image_output(&self, image: PreparedImage) -> (r: Result<PaddedProcessorOutput, ImageProcessorError>)
        requires
            image.wf(),
        ensures
            match spec_pad_batch_error(seq![image], self.spec_config().image_size) {
                Some(e) => r == Err::<PaddedProcessorOutput, ImageProcessorError>(e),
                None => r matches Ok(out) && padded_output_is(out, seq![image], self.spec_config().image_size, self.spec_config().output_layout, false),
            },
    {
        let images = vec![image];
        assert(images@ =~= seq![image]);
        self.preprocess_images_output(images.as_slice())
    }
}
} // verus!
