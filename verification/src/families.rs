//! Vision-language, fixed-size and video family configurations: the settings
//! that Hugging Face preprocessor configs fill in, with their defaults, the
//! generic lowering of the fixed families and the construction checks of the
//! families whose settings must agree with each other.

use vstd::prelude::*;

use crate::errors::ImageProcessorError;
use crate::generic::{config_is, ImageProcessorConfig};
use crate::geometry::{square_size, ImageSize};
use crate::layout::{
    batched_layout_for_image_layout, spec_batched_layout_for_image_layout,
    spec_video_layout_for_image_layout, video_layout_for_image_layout, ImageLayout, Layout,
    VideoLayout,
};
use crate::settings::{
    BatchExecution, ImageDecodeBackend, PixelFormat, ResizeFilter, ResizeMode, ResizeParity,
};

verus! {

/// `1 / 255` as an `f32` bit pattern.
pub const DEFAULT_RESCALE_FACTOR: u32 = 0x3B80_8081u32;

/// `1 / 127.5` as an `f32` bit pattern.
pub const SIGNED_RESCALE_FACTOR: u32 = 0x3C00_8081u32;

/// OpenAI CLIP per-channel means, as `f32` bit patterns.
pub open spec fn spec_clip_image_mean() -> Seq<u32> {
    seq![0x3EF6_813Au32, 0x3EEA_685Eu32, 0x3ED1_00FFu32]
}

/// OpenAI CLIP per-channel standard deviations, as `f32` bit patterns.
pub open spec fn spec_clip_image_std() -> Seq<u32> {
    seq![0x3E89_89D0u32, 0x3E85_C974u32, 0x3E8D_32A8u32]
}

/// Standard per-channel means `0.5`, as `f32` bit patterns.
pub open spec fn spec_standard_image_mean() -> Seq<u32> {
    seq![0x3F00_0000u32, 0x3F00_0000u32, 0x3F00_0000u32]
}

/// Standard per-channel standard deviations `0.5`, as `f32` bit patterns.
pub open spec fn spec_standard_image_std() -> Seq<u32> {
    seq![0x3F00_0000u32, 0x3F00_0000u32, 0x3F00_0000u32]
}

/// ImageNet per-channel means, as `f32` bit patterns.
pub open spec fn spec_imagenet_image_mean() -> Seq<u32> {
    seq![0x3EF8_51ECu32, 0x3EE9_78D5u32, 0x3ECF_DF3Bu32]
}

/// ImageNet per-channel standard deviations, as `f32` bit patterns.
pub open spec fn spec_imagenet_image_std() -> Seq<u32> {
    seq![0x3E6A_7EFAu32, 0x3E65_6042u32, 0x3E66_6666u32]
}

/// Returns the OpenAI CLIP per-channel means.
pub fn clip_image_mean() -> (r: Vec<u32>)
    ensures
        r@ == spec_clip_image_mean(),
{
    let r = vec![0x3EF6_813Au32, 0x3EEA_685Eu32, 0x3ED1_00FFu32];
    assert(r@ =~= spec_clip_image_mean());
    r
}

/// Returns the OpenAI CLIP per-channel standard deviations.
pub fn clip_image_std() -> (r: Vec<u32>)
    ensures
        r@ == spec_clip_image_std(),
{
    let r = vec![0x3E89_89D0u32, 0x3E85_C974u32, 0x3E8D_32A8u32];
    assert(r@ =~= spec_clip_image_std());
    r
}

/// Returns the standard per-channel means.
pub fn standard_image_mean() -> (r: Vec<u32>)
    ensures
        r@ == spec_standard_image_mean(),
{
    let r = vec![0x3F00_0000u32, 0x3F00_0000u32, 0x3F00_0000u32];
    assert(r@ =~= spec_standard_image_mean());
    r
}

/// Returns the standard per-channel standard deviations.
pub fn standard_image_std() -> (r: Vec<u32>)
    ensures
        r@ == spec_standard_image_std(),
{
    let r = vec![0x3F00_0000u32, 0x3F00_0000u32, 0x3F00_0000u32];
    assert(r@ =~= spec_standard_image_std());
    r
}

/// Returns the ImageNet per-channel means.
pub fn imagenet_image_mean() -> (r: Vec<u32>)
    ensures
        r@ == spec_imagenet_image_mean(),
{
    let r = vec![0x3EF8_51ECu32, 0x3EE9_78D5u32, 0x3ECF_DF3Bu32];
    assert(r@ =~= spec_imagenet_image_mean());
    r
}

/// Returns the ImageNet per-channel standard deviations.
pub fn imagenet_image_std() -> (r: Vec<u32>)
    ensures
        r@ == spec_imagenet_image_std(),
{
    let r = vec![0x3E6A_7EFAu32, 0x3E65_6042u32, 0x3E66_6666u32];
    assert(r@ =~= spec_imagenet_image_std());
    r
}

/// CLIP fixed-size preprocessing: resize, optionally center-crop, CLIP normalization.
#[derive(Clone, Copy, Debug, PartialEq, Eq, Structural)]
pub struct ClipImageProcessorConfig {
    /// Resize target.
    pub size: ImageSize,
    /// Center-crop target.
    pub crop_size: ImageSize,
    /// Whether the resized image is center-cropped to `crop_size`.
    pub do_center_crop: bool,
    /// Resize filter.
    pub resample: ResizeFilter,
    /// Resize parity policy.
    pub resize_parity: ResizeParity,
    /// Output axis order.
    pub output_layout: ImageLayout,
    /// Image decode backend.
    pub decode_backend: ImageDecodeBackend,
    /// Batch execution policy.
    pub batch_execution: BatchExecution,
}

impl Default for ClipImageProcessorConfig {
    fn default() -> (r: Self)
        ensures
            r == (ClipImageProcessorConfig {
                size: ImageSize { height: 224, width: 224 },
                crop_size: ImageSize { height: 224, width: 224 },
                do_center_crop: true,
                resample: ResizeFilter::Bicubic,
                resize_parity: ResizeParity::Compatibility,
                output_layout: ImageLayout::ChannelsHeightWidth,
                decode_backend: ImageDecodeBackend::ImageCrate,
                batch_execution: BatchExecution::Sequential,
            }),
    {
        ClipImageProcessorConfig {
            size: square_size(224),
            crop_size: square_size(224),
            do_center_crop: true,
            resample: ResizeFilter::Bicubic,
            resize_parity: ResizeParity::Compatibility,
            output_layout: ImageLayout::ChannelsHeightWidth,
            decode_backend: ImageDecodeBackend::ImageCrate,
            batch_execution: BatchExecution::Sequential,
        }
    }
}

/// The generic config of a resize-then-crop family: the crop size with a crop resize
/// when cropping, the resize size otherwise; rescale by `1 / 255`, RGB input.
pub open spec fn crop_family_generic_config(
    size: ImageSize,
    crop_size: ImageSize,
    do_center_crop: bool,
    resample: ResizeFilter,
    resize_parity: ResizeParity,
    output_layout: ImageLayout,
    decode_backend: ImageDecodeBackend,
    batch_execution: BatchExecution,
    image_mean: Seq<u32>,
    image_std: Seq<u32>,
    r: ImageProcessorConfig,
) -> bool {
    let target = if do_center_crop { crop_size } else { size };
    config_is(
        r,
        true,
        Some(target.height),
        Some(target.width),
        if do_center_crop { ResizeMode::Crop } else { ResizeMode::Default },
        resample,
        resize_parity,
        decode_backend,
        batch_execution,
        Some(PixelFormat::Rgb8),
        true,
        DEFAULT_RESCALE_FACTOR,
        true,
        image_mean,
        image_std,
        false,
        spec_batched_layout_for_image_layout(output_layout),
    )
}

/// Lowers a resize-then-crop family to the generic config.
fn crop_family_config(
    size: ImageSize,
    crop_size: ImageSize,
    do_center_crop: bool,
    resample: ResizeFilter,
    resize_parity: ResizeParity,
    output_layout: ImageLayout,
    decode_backend: ImageDecodeBackend,
    batch_execution: BatchExecution,
    image_mean: Vec<u32>,
    image_std: Vec<u32>,
) -> (r: ImageProcessorConfig)
    ensures
        crop_family_generic_config(size, crop_size, do_center_crop, resample, resize_parity,
            output_layout, decode_backend, batch_execution, image_mean@, image_std@, r),
{
    let target = if do_center_crop { crop_size } else { size };
    ImageProcessorConfig {
        do_resize: true,
        height: Some(target.height),
        width: Some(target.width),
        resize_mode: if do_center_crop { ResizeMode::Crop } else { ResizeMode::Default },
        resample,
        resize_parity,
        decode_backend,
        batch_execution,
        pixel_format: Some(PixelFormat::Rgb8),
        do_rescale: true,
        rescale_factor: DEFAULT_RESCALE_FACTOR,
        do_normalize: true,
        image_mean,
        image_std,
        do_binarize: false,
        output_layout: batched_layout_for_image_layout(output_layout),
    }
}

impl ClipImageProcessorConfig {
    /// Returns the image output axis order.
    pub fn output_image_layout(&self) -> (r: ImageLayout)
        ensures
            r == self.output_layout,
    {
        self.output_layout
    }

    /// Returns the video output axis order implied by `output_layout`.
    pub fn output_video_layout(&self) -> (r: VideoLayout)
        ensures
            r == spec_video_layout_for_image_layout(self.output_layout),
    {
        video_layout_for_image_layout(self.output_layout)
    }

    /// Lowers this config to the generic tensor-stage config with CLIP normalization.
    pub fn image_processor_config(&self) -> (r: ImageProcessorConfig)
        ensures
            crop_family_generic_config(self.size, self.crop_size, self.do_center_crop,
                self.resample, self.resize_parity, self.output_layout, self.decode_backend,
                self.batch_execution, spec_clip_image_mean(), spec_clip_image_std(), r),
    {
        crop_family_config(self.size, self.crop_size, self.do_center_crop, self.resample,
            self.resize_parity, self.output_layout, self.decode_backend, self.batch_execution,
            clip_image_mean(), clip_image_std())
    }
}

/// ViT fixed-size preprocessing: resize, optionally center-crop, standard normalization.
#[derive(Clone, Copy, Debug, PartialEq, Eq, Structural)]
pub struct VitImageProcessorConfig {
    /// Resize target.
    pub size: ImageSize,
    /// Center-crop target.
    pub crop_size: ImageSize,
    /// Whether the resized image is center-cropped to `crop_size`.
    pub do_center_crop: bool,
    /// Resize filter.
    pub resample: ResizeFilter,
    /// Resize parity policy.
    pub resize_parity: ResizeParity,
    /// Output axis order.
    pub output_layout: ImageLayout,
    /// Image decode backend.
    pub decode_backend: ImageDecodeBackend,
    /// Batch execution policy.
    pub batch_execution: BatchExecution,
}

impl Default for VitImageProcessorConfig {
    fn default() -> (r: Self)
        ensures
            r == (VitImageProcessorConfig {
                size: ImageSize { height: 224, width: 224 },
                crop_size: ImageSize { height: 224, width: 224 },
                do_center_crop: true,
                resample: ResizeFilter::Bilinear,
                resize_parity: ResizeParity::Compatibility,
                output_layout: ImageLayout::ChannelsHeightWidth,
                decode_backend: ImageDecodeBackend::ImageCrate,
                batch_execution: BatchExecution::Sequential,
            }),
    {
        VitImageProcessorConfig {
            size: square_size(224),
            crop_size: square_size(224),
            do_center_crop: true,
            resample: ResizeFilter::Bilinear,
            resize_parity: ResizeParity::Compatibility,
            output_layout: ImageLayout::ChannelsHeightWidth,
            decode_backend: ImageDecodeBackend::ImageCrate,
            batch_execution: BatchExecution::Sequential,
        }
    }
}

impl VitImageProcessorConfig {
    /// Lowers this config to the generic tensor-stage config with standard normalization.
    pub fn image_processor_config(&self) -> (r: ImageProcessorConfig)
        ensures
            crop_family_generic_config(self.size, self.crop_size, self.do_center_crop,
                self.resample, self.resize_parity, self.output_layout, self.decode_backend,
                self.batch_execution, spec_standard_image_mean(), spec_standard_image_std(), r),
    {
        crop_family_config(self.size, self.crop_size, self.do_center_crop, self.resample,
            self.resize_parity, self.output_layout, self.decode_backend, self.batch_execution,
            standard_image_mean(), standard_image_std())
    }
}

/// The generic config of a family that resizes dynamically before its own patching
/// stage: no fixed resize, RGB input, channels-first batches.
pub open spec fn dynamic_family_generic_config(
    resample: ResizeFilter,
    resize_parity: ResizeParity,
    decode_backend: ImageDecodeBackend,
    batch_execution: BatchExecution,
    do_rescale: bool,
    rescale_factor: u32,
    do_normalize: bool,
    image_mean: Seq<u32>,
    image_std: Seq<u32>,
    r: ImageProcessorConfig,
) -> bool {
    config_is(
        r,
        false,
        None,
        None,
        ResizeMode::Default,
        resample,
        resize_parity,
        decode_backend,
        batch_execution,
        Some(PixelFormat::Rgb8),
        do_rescale,
        rescale_factor,
        do_normalize,
        image_mean,
        image_std,
        false,
        Layout::NCHW,
    )
}

/// Lowers a dynamically resizing family to the generic config.
fn dynamic_family_config(
    resample: ResizeFilter,
    resize_parity: ResizeParity,
    decode_backend: ImageDecodeBackend,
    batch_execution: BatchExecution,
    do_rescale: bool,
    rescale_factor: u32,
    do_normalize: bool,
    image_mean: Vec<u32>,
    image_std: Vec<u32>,
) -> (r: ImageProcessorConfig)
    ensures
        dynamic_family_generic_config(resample, resize_parity, decode_backend, batch_execution,
            do_rescale, rescale_factor, do_normalize, image_mean@, image_std@, r),
{
    ImageProcessorConfig {
        do_resize: false,
        height: None,
        width: None,
        resize_mode: ResizeMode::Default,
        resample,
        resize_parity,
        decode_backend,
        batch_execution,
        pixel_format: Some(PixelFormat::Rgb8),
        do_rescale,
        rescale_factor,
        do_normalize,
        image_mean,
        image_std,
        do_binarize: false,
        output_layout: Layout::NCHW,
    }
}

/// Copies a statistics vector.
fn copy_stats(values: &Vec<u32>) -> (r: Vec<u32>)
    ensures
        r@ == values@,
{
    let r = values.clone();
    assert(r@ =~= values@);
    r
}

/// Qwen smart-resize limits: both output edges are multiples of `factor` and the pixel
/// count lies within `min_pixels..=max_pixels`.
#[derive(Clone, Copy, Debug, PartialEq, Eq, Structural)]
pub struct ResizeLimits {
    /// Edge multiple.
    pub factor: usize,
    /// Smallest pixel count.
    pub min_pixels: usize,
    /// Largest pixel count.
    pub max_pixels: usize,
}

/// Qwen-VL dynamic-resolution patch preprocessing.
#[derive(Clone, Debug, PartialEq, Eq)]
pub struct QwenVlImageProcessorConfig {
    /// Smart-resize limits.
    pub resize_limits: ResizeLimits,
    /// Spatial patch size.
    pub patch_size: usize,
    /// Temporal patch size.
    pub temporal_patch_size: usize,
    /// Spatial merge size.
    pub merge_size: usize,
    /// Whether values are rescaled.
    pub do_rescale: bool,
    /// Rescale factor, as an `f32` bit pattern.
    pub rescale_factor: u32,
    /// Whether values are normalized.
    pub do_normalize: bool,
    /// Per-channel means, as `f32` bit patterns.
    pub image_mean: Vec<u32>,
    /// Per-channel standard deviations, as `f32` bit patterns.
    pub image_std: Vec<u32>,
    /// Resize filter.
    pub resample: ResizeFilter,
    /// Resize parity policy.
    pub resize_parity: ResizeParity,
    /// Image decode backend.
    pub decode_backend: ImageDecodeBackend,
    /// Batch execution policy.
    pub batch_execution: BatchExecution,
}

impl Default for QwenVlImageProcessorConfig {
    fn default() -> (r: Self)
        ensures
            r.resize_limits == (ResizeLimits { factor: 28, min_pixels: 3136, max_pixels: 1003520 }),
            r.patch_size == 14,
            r.temporal_patch_size == 2,
            r.merge_size == 2,
            r.do_rescale,
            r.rescale_factor == DEFAULT_RESCALE_FACTOR,
            r.do_normalize,
            r.image_mean@ == spec_clip_image_mean(),
            r.image_std@ == spec_clip_image_std(),
            r.resample == ResizeFilter::Bicubic,
            r.resize_parity == ResizeParity::Compatibility,
            r.decode_backend == ImageDecodeBackend::ImageCrate,
            r.batch_execution == BatchExecution::Sequential,
    {
        QwenVlImageProcessorConfig {
            resize_limits: ResizeLimits { factor: 28, min_pixels: 3136, max_pixels: 1003520 },
            patch_size: 14,
            temporal_patch_size: 2,
            merge_size: 2,
            do_rescale: true,
            rescale_factor: DEFAULT_RESCALE_FACTOR,
            do_normalize: true,
            image_mean: clip_image_mean(),
            image_std: clip_image_std(),
            resample: ResizeFilter::Bicubic,
            resize_parity: ResizeParity::Compatibility,
            decode_backend: ImageDecodeBackend::ImageCrate,
            batch_execution: BatchExecution::Sequential,
        }
    }
}

impl QwenVlImageProcessorConfig {
    /// Lowers this config to the generic tensor stage that follows the smart resize.
    pub fn image_processor_config(&self) -> (r: ImageProcessorConfig)
        ensures
            dynamic_family_generic_config(self.resample, self.resize_parity, self.decode_backend,
                self.batch_execution, self.do_rescale, self.rescale_factor, self.do_normalize,
                self.image_mean@, self.image_std@, r),
    {
        dynamic_family_config(self.resample, self.resize_parity, self.decode_backend,
            self.batch_execution, self.do_rescale, self.rescale_factor, self.do_normalize,
            copy_stats(&self.image_mean), copy_stats(&self.image_std))
    }
}

/// Qwen-VL processor with a validated patch geometry.
#[derive(Clone, Debug)]
pub struct QwenVlImageProcessor {
    config: QwenVlImageProcessorConfig,
}

impl QwenVlImageProcessor {
    /// The configuration this processor was built from.
    pub closed spec fn spec_config(&self) -> QwenVlImageProcessorConfig {
        self.config
    }

    /// Creates a processor; the resize factor must be the patch size times the merge size.
    pub fn new(config: QwenVlImageProcessorConfig) -> (r: Result<QwenVlImageProcessor, ImageProcessorError>)
        ensures
            config.resize_limits.factor != config.patch_size * config.merge_size
                ==> r == Err::<QwenVlImageProcessor, ImageProcessorError>(ImageProcessorError::InvalidPatchGeometry {
                    resize_factor: config.resize_limits.factor,
                    patch_size: config.patch_size,
                    merge_size: config.merge_size,
                }),
            config.resize_limits.factor == config.patch_size * config.merge_size
                ==> (r matches Ok(p) && p.spec_config() == config),
    {
        let factor = config.resize_limits.factor;
        let consistent = match config.patch_size.checked_mul(config.merge_size) {
            Some(product) => product == factor,
            None => false,
        };
        if !consistent {
            return Err(ImageProcessorError::InvalidPatchGeometry {
                resize_factor: factor,
                patch_size: config.patch_size,
                merge_size: config.merge_size,
            });
        }
        Ok(QwenVlImageProcessor { config })
    }

    /// Returns the configuration.
    pub fn config(&self) -> (r: &QwenVlImageProcessorConfig)
        ensures
            *r == self.spec_config(),
    {
        &self.config
    }
}

/// Idefics3 image-splitting preprocessing.
#[derive(Clone, Debug, PartialEq, Eq)]
pub struct Idefics3ImageProcessorConfig {
    /// Longest edge after the global resize.
    pub longest_edge: usize,
    /// Edge of each split tile.
    pub max_image_size: usize,
    /// Whether images are resized.
    pub do_resize: bool,
    /// Whether images are split into tiles.
    pub do_image_splitting: bool,
    /// Whether batches are padded.
    pub do_pad: bool,
    /// Whether values are rescaled.
    pub do_rescale: bool,
    /// Rescale factor, as an `f32` bit pattern.
    pub rescale_factor: u32,
    /// Whether values are normalized.
    pub do_normalize: bool,
    /// Per-channel means, as `f32` bit patterns.
    pub image_mean: Vec<u32>,
    /// Per-channel standard deviations, as `f32` bit patterns.
    pub image_std: Vec<u32>,
    /// Resize filter.
    pub resample: ResizeFilter,
    /// Resize parity policy.
    pub resize_parity: ResizeParity,
    /// Image decode backend.
    pub decode_backend: ImageDecodeBackend,
    /// Batch execution policy.
    pub batch_execution: BatchExecution,
}

impl Default for Idefics3ImageProcessorConfig {
    fn default() -> (r: Self)
        ensures
            r.longest_edge == 1456,
            r.max_image_size == 364,
            r.do_resize,
            r.do_image_splitting,
            r.do_pad,
            r.do_rescale,
            r.rescale_factor == DEFAULT_RESCALE_FACTOR,
            r.do_normalize,
            r.image_mean@ == spec_standard_image_mean(),
            r.image_std@ == spec_standard_image_std(),
            r.resample == ResizeFilter::Lanczos,
            r.resize_parity == ResizeParity::Compatibility,
            r.decode_backend == ImageDecodeBackend::ImageCrate,
            r.batch_execution == BatchExecution::Sequential,
    {
        Idefics3ImageProcessorConfig {
            longest_edge: 1456,
            max_image_size: 364,
            do_resize: true,
            do_image_splitting: true,
            do_pad: true,
            do_rescale: true,
            rescale_factor: DEFAULT_RESCALE_FACTOR,
            do_normalize: true,
            image_mean: standard_image_mean(),
            image_std: standard_image_std(),
            resample: ResizeFilter::Lanczos,
            resize_parity: ResizeParity::Compatibility,
            decode_backend: ImageDecodeBackend::ImageCrate,
            batch_execution: BatchExecution::Sequential,
        }
    }
}

impl Idefics3ImageProcessorConfig {
    /// Lowers this config to the generic tensor stage that follows the split resize.
    pub fn image_processor_config(&self) -> (r: ImageProcessorConfig)
        ensures
            dynamic_family_generic_config(self.resample, self.resize_parity, self.decode_backend,
                self.batch_execution, self.do_rescale, self.rescale_factor, self.do_normalize,
                self.image_mean@, self.image_std@, r),
    {
        dynamic_family_config(self.resample, self.resize_parity, self.decode_backend,
            self.batch_execution, self.do_rescale, self.rescale_factor, self.do_normalize,
            copy_stats(&self.image_mean), copy_stats(&self.image_std))
    }
}

/// Gemma 3 fixed-size preprocessing with optional pan-and-scan crops.
#[derive(Clone, Debug, PartialEq, Eq)]
pub struct Gemma3ImageProcessorConfig {
    /// Resize target.
    pub size: ImageSize,
    /// Whether images are resized.
    pub do_resize: bool,
    /// Whether pan-and-scan crops are added.
    pub do_pan_and_scan: bool,
    /// Smallest pan-and-scan crop edge.
    pub pan_and_scan_min_crop_size: usize,
    /// Largest number of pan-and-scan crops.
    pub pan_and_scan_max_num_crops: usize,
    /// Aspect ratio that activates pan-and-scan, as an `f64` bit pattern.
    pub pan_and_scan_min_ratio_to_activate: u64,
    /// Whether values are rescaled.
    pub do_rescale: bool,
    /// Rescale factor, as an `f32` bit pattern.
    pub rescale_factor: u32,
    /// Whether values are normalized.
    pub do_normalize: bool,
    /// Per-channel means, as `f32` bit patterns.
    pub image_mean: Vec<u32>,
    /// Per-channel standard deviations, as `f32` bit patterns.
    pub image_std: Vec<u32>,
    /// Resize filter.
    pub resample: ResizeFilter,
    /// Resize parity policy.
    pub resize_parity: ResizeParity,
    /// Image decode backend.
    pub decode_backend: ImageDecodeBackend,
    /// Batch execution policy.
    pub batch_execution: BatchExecution,
}

/// `1.2` as an `f64` bit pattern.
pub const GEMMA3_MIN_RATIO_TO_ACTIVATE: u64 = 0x3FF3_3333_3333_3333u64;

impl Default for Gemma3ImageProcessorConfig {
    fn default() -> (r: Self)
        ensures
            r.size == (ImageSize { height: 896, width: 896 }),
            r.do_resize,
            !r.do_pan_and_scan,
            r.pan_and_scan_min_crop_size == 256,
            r.pan_and_scan_max_num_crops == 4,
            r.pan_and_scan_min_ratio_to_activate == GEMMA3_MIN_RATIO_TO_ACTIVATE,
            r.do_rescale,
            r.rescale_factor == DEFAULT_RESCALE_FACTOR,
            r.do_normalize,
            r.image_mean@ == spec_standard_image_mean(),
            r.image_std@ == spec_standard_image_std(),
            r.resample == ResizeFilter::Bilinear,
            r.resize_parity == ResizeParity::Compatibility,
            r.decode_backend == ImageDecodeBackend::ImageCrate,
            r.batch_execution == BatchExecution::Sequential,
    {
        Gemma3ImageProcessorConfig {
            size: square_size(896),
            do_resize: true,
            do_pan_and_scan: false,
            pan_and_scan_min_crop_size: 256,
            pan_and_scan_max_num_crops: 4,
            pan_and_scan_min_ratio_to_activate: GEMMA3_MIN_RATIO_TO_ACTIVATE,
            do_rescale: true,
            rescale_factor: DEFAULT_RESCALE_FACTOR,
            do_normalize: true,
            image_mean: standard_image_mean(),
            image_std: standard_image_std(),
            resample: ResizeFilter::Bilinear,
            resize_parity: ResizeParity::Compatibility,
            decode_backend: ImageDecodeBackend::ImageCrate,
            batch_execution: BatchExecution::Sequential,
        }
    }
}

impl Gemma3ImageProcessorConfig {
    /// Lowers this config to the generic config: the fixed size when resizing, RGB
    /// input, channels-first batches.
    pub fn image_processor_config(&self) -> (r: ImageProcessorConfig)
        ensures
            config_is(r, self.do_resize, Some(self.size.height), Some(self.size.width),
                ResizeMode::Default, self.resample, self.resize_parity, self.decode_backend,
                self.batch_execution, Some(PixelFormat::Rgb8), self.do_rescale,
                self.rescale_factor, self.do_normalize, self.image_mean@, self.image_std@,
                false, Layout::NCHW),
    {
        ImageProcessorConfig {
            do_resize: self.do_resize,
            height: Some(self.size.height),
            width: Some(self.size.width),
            resize_mode: ResizeMode::Default,
            resample: self.resample,
            resize_parity: self.resize_parity,
            decode_backend: self.decode_backend,
            batch_execution: self.batch_execution,
            pixel_format: Some(PixelFormat::Rgb8),
            do_rescale: self.do_rescale,
            rescale_factor: self.rescale_factor,
            do_normalize: self.do_normalize,
            image_mean: copy_stats(&self.image_mean),
            image_std: copy_stats(&self.image_std),
            do_binarize: false,
            output_layout: Layout::NCHW,
        }
    }
}

/// Mllama tiled-canvas preprocessing.
#[derive(Clone, Debug, PartialEq, Eq)]
pub struct MllamaImageProcessorConfig {
    /// Edge of each square tile.
    pub tile_size: usize,
    /// Largest number of tiles per image.
    pub max_image_tiles: usize,
    /// Whether images are resized.
    pub do_resize: bool,
    /// Whether tiles are padded to the canvas; required.
    pub do_pad: bool,
    /// Whether values are rescaled.
    pub do_rescale: bool,
    /// Rescale factor, as an `f32` bit pattern.
    pub rescale_factor: u32,
    /// Whether values are normalized.
    pub do_normalize: bool,
    /// Per-channel means, as `f32` bit patterns.
    pub image_mean: Vec<u32>,
    /// Per-channel standard deviations, as `f32` bit patterns.
    pub image_std: Vec<u32>,
    /// Resize filter.
    pub resample: ResizeFilter,
    /// Resize parity policy.
    pub resize_parity: ResizeParity,
    /// Image decode backend.
    pub decode_backend: ImageDecodeBackend,
    /// Batch execution policy.
    pub batch_execution: BatchExecution,
}

impl Default for MllamaImageProcessorConfig {
    fn default() -> (r: Self)
        ensures
            r.tile_size == 560,
            r.max_image_tiles == 4,
            r.do_resize,
            r.do_pad,
            r.do_rescale,
            r.rescale_factor == DEFAULT_RESCALE_FACTOR,
            r.do_normalize,
            r.image_mean@ == spec_standard_image_mean(),
            r.image_std@ == spec_standard_image_std(),
            r.resample == ResizeFilter::Bilinear,
            r.resize_parity == ResizeParity::Compatibility,
            r.decode_backend == ImageDecodeBackend::ImageCrate,
            r.batch_execution == BatchExecution::Sequential,
    {
        MllamaImageProcessorConfig {
            tile_size: 560,
            max_image_tiles: 4,
            do_resize: true,
            do_pad: true,
            do_rescale: true,
            rescale_factor: DEFAULT_RESCALE_FACTOR,
            do_normalize: true,
            image_mean: standard_image_mean(),
            image_std: standard_image_std(),
            resample: ResizeFilter::Bilinear,
            resize_parity: ResizeParity::Compatibility,
            decode_backend: ImageDecodeBackend::ImageCrate,
            batch_execution: BatchExecution::Sequential,
        }
    }
}

impl MllamaImageProcessorConfig {
    /// Lowers this config to the generic tensor stage that follows the tiling resize.
    pub fn image_processor_config(&self) -> (r: ImageProcessorConfig)
        ensures
            dynamic_family_generic_config(self.resample, self.resize_parity, self.decode_backend,
                self.batch_execution, self.do_rescale, self.rescale_factor, self.do_normalize,
                self.image_mean@, self.image_std@, r),
    {
        dynamic_family_config(self.resample, self.resize_parity, self.decode_backend,
            self.batch_execution, self.do_rescale, self.rescale_factor, self.do_normalize,
            copy_stats(&self.image_mean), copy_stats(&self.image_std))
    }
}

/// Mllama processor; tiles are always padded to the canvas.
#[derive(Clone, Debug)]
pub struct MllamaImageProcessor {
    config: MllamaImageProcessorConfig,
}

impl MllamaImageProcessor {
    /// The configuration this processor was built from.
    pub closed spec fn spec_config(&self) -> MllamaImageProcessorConfig {
        self.config
    }

    /// Creates a processor; padding cannot be disabled.
    pub fn new(config: MllamaImageProcessorConfig) -> (r: Result<MllamaImageProcessor, ImageProcessorError>)
        ensures
            !config.do_pad ==> r == Err::<MllamaImageProcessor, ImageProcessorError>(
                ImageProcessorError::UnsupportedProcessorOption { field: "do_pad" }),
            config.do_pad ==> (r matches Ok(p) && p.spec_config() == config),
    {
        if !config.do_pad {
            return Err(ImageProcessorError::UnsupportedProcessorOption { field: "do_pad" });
        }
        Ok(MllamaImageProcessor { config })
    }

    /// Returns the configuration.
    pub fn config(&self) -> (r: &MllamaImageProcessorConfig)
        ensures
            *r == self.spec_config(),
    {
        &self.config
    }
}

/// ViViT clip preprocessing with an optional signed offset after rescaling.
#[derive(Clone, Debug, PartialEq, Eq)]
pub struct VivitImageProcessorConfig {
    /// Shortest-edge resize target.
    pub size: usize,
    /// Center-crop target.
    pub crop_size: ImageSize,
    /// Whether frames are resized.
    pub do_resize: bool,
    /// Whether frames are center-cropped.
    pub do_center_crop: bool,
    /// Whether values are rescaled.
    pub do_rescale: bool,
    /// Rescale factor, as an `f32` bit pattern.
    pub rescale_factor: u32,
    /// Whether one is subtracted after rescaling; requires rescaling.
    pub offset: bool,
    /// Whether values are normalized.
    pub do_normalize: bool,
    /// Per-channel means, as `f32` bit patterns.
    pub image_mean: Vec<u32>,
    /// Per-channel standard deviations, as `f32` bit patterns.
    pub image_std: Vec<u32>,
    /// Resize filter.
    pub resample: ResizeFilter,
}

impl Default for VivitImageProcessorConfig {
    fn default() -> (r: Self)
        ensures
            r.size == 256,
            r.crop_size == (ImageSize { height: 224, width: 224 }),
            r.do_resize,
            r.do_center_crop,
            r.do_rescale,
            r.rescale_factor == SIGNED_RESCALE_FACTOR,
            r.offset,
            r.do_normalize,
            r.image_mean@ == spec_standard_image_mean(),
            r.image_std@ == spec_standard_image_std(),
            r.resample == ResizeFilter::Bilinear,
    {
        VivitImageProcessorConfig {
            size: 256,
            crop_size: square_size(224),
            do_resize: true,
            do_center_crop: true,
            do_rescale: true,
            rescale_factor: SIGNED_RESCALE_FACTOR,
            offset: true,
            do_normalize: true,
            image_mean: standard_image_mean(),
            image_std: standard_image_std(),
            resample: ResizeFilter::Bilinear,
        }
    }
}

/// ViViT processor; the offset is only defined on rescaled values.
#[derive(Clone, Debug)]
pub struct VivitImageProcessor {
    config: VivitImageProcessorConfig,
}

impl VivitImageProcessor {
    /// The configuration this processor was built from.
    pub closed spec fn spec_config(&self) -> VivitImageProcessorConfig {
        self.config
    }

    /// Creates a processor; an offset without rescaling is rejected.
    pub fn new(config: VivitImageProcessorConfig) -> (r: Result<VivitImageProcessor, ImageProcessorError>)
        ensures
            config.offset && !config.do_rescale ==> r == Err::<VivitImageProcessor, ImageProcessorError>(
                ImageProcessorError::UnsupportedProcessorOption { field: "offset" }),
            !(config.offset && !config.do_rescale) ==> (r matches Ok(p) && p.spec_config() == config),
    {
        if config.offset && !config.do_rescale {
            return Err(ImageProcessorError::UnsupportedProcessorOption { field: "offset" });
        }
        Ok(VivitImageProcessor { config })
    }

    /// Returns the configuration.
    pub fn config(&self) -> (r: &VivitImageProcessorConfig)
        ensures
            *r == self.spec_config(),
    {
        &self.config
    }
}

/// VideoMAE clip preprocessing.
#[derive(Clone, Debug, PartialEq, Eq)]
pub struct VideoMaeImageProcessorConfig {
    /// Shortest-edge resize target.
    pub size: usize,
    /// Center-crop target.
    pub crop_size: ImageSize,
    /// Whether frames are resized.
    pub do_resize: bool,
    /// Whether frames are center-cropped.
    pub do_center_crop: bool,
    /// Whether values are rescaled.
    pub do_rescale: bool,
    /// Rescale factor, as an `f32` bit pattern.
    pub rescale_factor: u32,
    /// Whether values are normalized.
    pub do_normalize: bool,
    /// Per-channel means, as `f32` bit patterns.
    pub image_mean: Vec<u32>,
    /// Per-channel standard deviations, as `f32` bit patterns.
    pub image_std: Vec<u32>,
    /// Resize filter.
    pub resample: ResizeFilter,
}

impl Default for VideoMaeImageProcessorConfig {
    fn default() -> (r: Self)
        ensures
            r.size == 224,
            r.crop_size == (ImageSize { height: 224, width: 224 }),
            r.do_resize,
            r.do_center_crop,
            r.do_rescale,
            r.rescale_factor == DEFAULT_RESCALE_FACTOR,
            r.do_normalize,
            r.image_mean@ == spec_imagenet_image_mean(),
            r.image_std@ == spec_imagenet_image_std(),
            r.resample == ResizeFilter::Bilinear,
    {
        VideoMaeImageProcessorConfig {
            size: 224,
            crop_size: square_size(224),
            do_resize: true,
            do_center_crop: true,
            do_rescale: true,
            rescale_factor: DEFAULT_RESCALE_FACTOR,
            do_normalize: true,
            image_mean: imagenet_image_mean(),
            image_std: imagenet_image_std(),
            resample: ResizeFilter::Bilinear,
        }
    }
}

/// LLaVA-NeXT any-resolution patch preprocessing.
#[derive(Clone, Debug, PartialEq, Eq)]
pub struct LlavaNextImageProcessorConfig {
    /// Shortest-edge resize target of each patch.
    pub size: ImageSize,
    /// Center-crop target of each patch.
    pub crop_size: ImageSize,
    /// Candidate any-resolution grids.
    pub image_grid_pinpoints: Vec<ImageSize>,
    /// Whether patches are center-cropped.
    pub do_center_crop: bool,
    /// Whether batches are padded to the largest patch count.
    pub do_pad: bool,
    /// Whether values are rescaled.
    pub do_rescale: bool,
    /// Rescale factor, as an `f32` bit pattern.
    pub rescale_factor: u32,
    /// Whether values are normalized.
    pub do_normalize: bool,
    /// Per-channel means, as `f32` bit patterns.
    pub image_mean: Vec<u32>,
    /// Per-channel standard deviations, as `f32` bit patterns.
    pub image_std: Vec<u32>,
    /// Resize filter.
    pub resample: ResizeFilter,
}

/// The default any-resolution grids of LLaVA-NeXT.
pub open spec fn spec_llava_next_pinpoints() -> Seq<ImageSize> {
    seq![
        ImageSize { height: 336, width: 672 },
        ImageSize { height: 672, width: 336 },
        ImageSize { height: 672, width: 672 },
        ImageSize { height: 1008, width: 336 },
        ImageSize { height: 336, width: 1008 },
    ]
}

impl Default for LlavaNextImageProcessorConfig {
    fn default() -> (r: Self)
        ensures
            r.size == (ImageSize { height: 336, width: 336 }),
            r.crop_size == (ImageSize { height: 336, width: 336 }),
            r.image_grid_pinpoints@ == spec_llava_next_pinpoints(),
            r.do_center_crop,
            r.do_pad,
            r.do_rescale,
            r.rescale_factor == DEFAULT_RESCALE_FACTOR,
            r.do_normalize,
            r.image_mean@ == spec_clip_image_mean(),
            r.image_std@ == spec_clip_image_std(),
            r.resample == ResizeFilter::Bicubic,
    {
        let image_grid_pinpoints = vec![
            ImageSize { height: 336, width: 672 },
            ImageSize { height: 672, width: 336 },
            ImageSize { height: 672, width: 672 },
            ImageSize { height: 1008, width: 336 },
            ImageSize { height: 336, width: 1008 },
        ];
        assert(image_grid_pinpoints@ =~= spec_llava_next_pinpoints());
        LlavaNextImageProcessorConfig {
            size: square_size(336),
            crop_size: square_size(336),
            image_grid_pinpoints,
            do_center_crop: true,
            do_pad: true,
            do_rescale: true,
            rescale_factor: DEFAULT_RESCALE_FACTOR,
            do_normalize: true,
            image_mean: clip_image_mean(),
            image_std: clip_image_std(),
            resample: ResizeFilter::Bicubic,
        }
    }
}

/// Pixtral patch-aligned preprocessing.
#[derive(Clone, Debug, PartialEq, Eq)]
pub struct PixtralImageProcessorConfig {
    /// Largest output size.
    pub max_size: ImageSize,
    /// Patch size the output is aligned to.
    pub patch_size: ImageSize,
    /// Whether values are rescaled.
    pub do_rescale: bool,
    /// Rescale factor, as an `f32` bit pattern.
    pub rescale_factor: u32,
    /// Whether values are normalized.
    pub do_normalize: bool,
    /// Per-channel means, as `f32` bit patterns.
    pub image_mean: Vec<u32>,
    /// Per-channel standard deviations, as `f32` bit patterns.
    pub image_std: Vec<u32>,
    /// Resize filter.
    pub resample: ResizeFilter,
}

impl Default for PixtralImageProcessorConfig {
    fn default() -> (r: Self)
        ensures
            r.max_size == (ImageSize { height: 1024, width: 1024 }),
            r.patch_size == (ImageSize { height: 16, width: 16 }),
            r.do_rescale,
            r.rescale_factor == DEFAULT_RESCALE_FACTOR,
            r.do_normalize,
            r.image_mean@ == spec_clip_image_mean(),
            r.image_std@ == spec_clip_image_std(),
            r.resample == ResizeFilter::Bicubic,
    {
        PixtralImageProcessorConfig {
            max_size: square_size(1024),
            patch_size: square_size(16),
            do_rescale: true,
            rescale_factor: DEFAULT_RESCALE_FACTOR,
            do_normalize: true,
            image_mean: clip_image_mean(),
            image_std: clip_image_std(),
            resample: ResizeFilter::Bicubic,
        }
    }
}

/// Document and OCR preprocessing (Donut, Nougat and related processors).
#[derive(Clone, Debug, PartialEq, Eq)]
pub struct DocumentOcrImageProcessorConfig {
    /// Target image size.
    pub image_size: ImageSize,
    /// Whether images are resized.
    pub do_resize: bool,
    /// Whether images are thumbnailed into the target.
    pub do_thumbnail: bool,
    /// Whether the long image axis is aligned with the long target axis.
    pub do_align_long_axis: bool,
    /// Whether images are padded to the target.
    pub do_pad: bool,
    /// Whether values are rescaled.
    pub do_rescale: bool,
    /// Rescale factor, as an `f32` bit pattern.
    pub rescale_factor: u32,
    /// Whether values are normalized.
    pub do_normalize: bool,
    /// Per-channel means, as `f32` bit patterns.
    pub image_mean: Vec<u32>,
    /// Per-channel standard deviations, as `f32` bit patterns.
    pub image_std: Vec<u32>,
    /// Resize filter.
    pub resample: ResizeFilter,
}

impl Default for DocumentOcrImageProcessorConfig {
    fn default() -> (r: Self)
        ensures
            r.image_size == (ImageSize { height: 2560, width: 1920 }),
            r.do_resize,
            r.do_thumbnail,
            !r.do_align_long_axis,
            r.do_pad,
            r.do_rescale,
            r.rescale_factor == DEFAULT_RESCALE_FACTOR,
            r.do_normalize,
            r.image_mean@ == spec_standard_image_mean(),
            r.image_std@ == spec_standard_image_std(),
            r.resample == ResizeFilter::Bilinear,
    {
        DocumentOcrImageProcessorConfig {
            image_size: ImageSize { height: 2560, width: 1920 },
            do_resize: true,
            do_thumbnail: true,
            do_align_long_axis: false,
            do_pad: true,
            do_rescale: true,
            rescale_factor: DEFAULT_RESCALE_FACTOR,
            do_normalize: true,
            image_mean: standard_image_mean(),
            image_std: standard_image_std(),
            resample: ResizeFilter::Bilinear,
        }
    }
}

/// VAE scale factor of VisualCloze.
pub const VISUAL_CLOZE_VAE_SCALE_FACTOR: usize = 16;

/// VAE latent channel count of VisualCloze.
pub const VISUAL_CLOZE_VAE_LATENT_CHANNELS: usize = 16;

/// VisualCloze in-context image preprocessing.
#[derive(Clone, Copy, Debug, PartialEq, Eq, Structural)]
pub struct VisualClozeProcessorConfig {
    /// Target resolution of the in-context grid cells.
    pub resolution: usize,
    /// VAE spatial scale factor.
    pub vae_scale_factor: usize,
    /// VAE latent channel count.
    pub vae_latent_channels: usize,
    /// Whether images are resized.
    pub do_resize: bool,
    /// Resize filter.
    pub resample: ResizeFilter,
    /// Whether values are normalized to `[-1, 1]`.
    pub do_normalize: bool,
    /// Whether values are thresholded to zero or one.
    pub do_binarize: bool,
    /// Optional pixel-format conversion before tensor conversion.
    pub pixel_format: Option<PixelFormat>,
}

impl Default for VisualClozeProcessorConfig {
    fn default() -> (r: Self)
        ensures
            r == (VisualClozeProcessorConfig {
                resolution: 384,
                vae_scale_factor: VISUAL_CLOZE_VAE_SCALE_FACTOR,
                vae_latent_channels: VISUAL_CLOZE_VAE_LATENT_CHANNELS,
                do_resize: true,
                resample: ResizeFilter::Lanczos,
                do_normalize: true,
                do_binarize: false,
                pixel_format: None,
            }),
    {
        VisualClozeProcessorConfig {
            resolution: 384,
            vae_scale_factor: VISUAL_CLOZE_VAE_SCALE_FACTOR,
            vae_latent_channels: VISUAL_CLOZE_VAE_LATENT_CHANNELS,
            do_resize: true,
            resample: ResizeFilter::Lanczos,
            do_normalize: true,
            do_binarize: false,
            pixel_format: None,
        }
    }
}

} // verus!
