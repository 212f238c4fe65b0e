//! The generic tensor-stage configuration that every processor family lowers to.
//!
//! Rescale factors and normalization statistics are single-precision values that this
//! library only stores and passes on; it keeps them as IEEE-754 bit patterns (`u32`).

use vstd::prelude::*;

use crate::geometry::ImageSize;
use crate::layout::{batched_layout_for_image_layout, spec_batched_layout_for_image_layout, ImageLayout, Layout};
use crate::settings::{BatchExecution, ImageDecodeBackend, PixelFormat, ResizeFilter, ResizeMode, ResizeParity};

verus! {

/// Configuration of the generic tensor stage.
#[derive(Clone, Debug, PartialEq, Eq)]
pub struct ImageProcessorConfig {
    /// Whether images are resized.
    pub do_resize: bool,
    /// Requested output height, when fixed.
    pub height: Option<usize>,
    /// Requested output width, when fixed.
    pub width: Option<usize>,
    /// How images are mapped onto the requested size.
    pub resize_mode: ResizeMode,
    /// Resize filter.
    pub resample: ResizeFilter,
    /// Resize parity policy.
    pub resize_parity: ResizeParity,
    /// Image decode backend.
    pub decode_backend: ImageDecodeBackend,
    /// Batch execution policy.
    pub batch_execution: BatchExecution,
    /// Optional pixel-format conversion before tensor conversion.
    pub pixel_format: Option<PixelFormat>,
    /// Whether pixel values are multiplied by `rescale_factor`.
    pub do_rescale: bool,
    /// Rescale factor, as an `f32` bit pattern.
    pub rescale_factor: u32,
    /// Whether per-channel normalization is applied.
    pub do_normalize: bool,
    /// Per-channel means, as `f32` bit patterns.
    pub image_mean: Vec<u32>,
    /// Per-channel standard deviations, as `f32` bit patterns.
    pub image_std: Vec<u32>,
    /// Whether values are thresholded to zero or one.
    pub do_binarize: bool,
    /// Batched tensor layout of the output.
    pub output_layout: Layout,
}

/// Whether `c` holds exactly the given generic settings, with the normalization
/// statistics given by their views.
pub open spec fn config_is(
    c: ImageProcessorConfig,
    do_resize: bool,
    height: Option<usize>,
    width: Option<usize>,
    resize_mode: ResizeMode,
    resample: ResizeFilter,
    resize_parity: ResizeParity,
    decode_backend: ImageDecodeBackend,
    batch_execution: BatchExecution,
    pixel_format: Option<PixelFormat>,
    do_rescale: bool,
    rescale_factor: u32,
    do_normalize: bool,
    image_mean: Seq<u32>,
    image_std: Seq<u32>,
    do_binarize: bool,
    output_layout: Layout,
) -> bool {
    &&& c.do_resize == do_resize
    &&& c.height == height
    &&& c.width == width
    &&& c.resize_mode == resize_mode
    &&& c.resample == resample
    &&& c.resize_parity == resize_parity
    &&& c.decode_backend == decode_backend
    &&& c.batch_execution == batch_execution
    &&& c.pixel_format == pixel_format
    &&& c.do_rescale == do_rescale
    &&& c.rescale_factor == rescale_factor
    &&& c.do_normalize == do_normalize
    &&& c.image_mean@ == image_mean
    &&& c.image_std@ == image_std
    &&& c.do_binarize == do_binarize
    &&& c.output_layout == output_layout
}

/// Whether `a` holds the same settings as `b`, comparing statistics by their views.
pub open spec fn same_config(a: ImageProcessorConfig, b: ImageProcessorConfig) -> bool {
    config_is(
        a,
        b.do_resize,
        b.height,
        b.width,
        b.resize_mode,
        b.resample,
        b.resize_parity,
        b.decode_backend,
        b.batch_execution,
        b.pixel_format,
        b.do_rescale,
        b.rescale_factor,
        b.do_normalize,
        b.image_mean@,
        b.image_std@,
        b.do_binarize,
        b.output_layout,
    )
}

/// Returns a copy of `config`.
pub fn duplicate_config(config: &ImageProcessorConfig) -> (r: ImageProcessorConfig)
    ensures
        same_config(r, *config),
{
    let image_mean = config.image_mean.clone();
    let image_std = config.image_std.clone();
    assert(image_mean@ =~= config.image_mean@);
    assert(image_std@ =~= config.image_std@);
    ImageProcessorConfig {
        do_resize: config.do_resize,
        height: config.height,
        width: config.width,
        resize_mode: config.resize_mode,
        resample: config.resample,
        resize_parity: config.resize_parity,
        decode_backend: config.decode_backend,
        batch_execution: config.batch_execution,
        pixel_format: config.pixel_format,
        do_rescale: config.do_rescale,
        rescale_factor: config.rescale_factor,
        do_normalize: config.do_normalize,
        image_mean,
        image_std,
        do_binarize: config.do_binarize,
        output_layout: config.output_layout,
    }
}

/// `1 / 255` as an `f32` bit pattern.
pub open spec fn spec_default_rescale_factor() -> u32 {
    0x3B80_8081u32
}

/// `1.0` as an `f32` bit pattern.
pub open spec fn spec_unit_rescale_factor() -> u32 {
    0x3F80_0000u32
}

/// Diffusers VAE normalization mean `[0.5; 3]`.
pub open spec fn spec_diffusion_vae_image_mean() -> Seq<u32> {
    seq![0x3F00_0000u32, 0x3F00_0000u32, 0x3F00_0000u32]
}

/// Diffusers VAE normalization standard deviation `[0.5; 3]`.
pub open spec fn spec_diffusion_vae_image_std() -> Seq<u32> {
    seq![0x3F00_0000u32, 0x3F00_0000u32, 0x3F00_0000u32]
}

/// ImageNet mean `[0.485, 0.456, 0.406]`.
pub open spec fn spec_imagenet_mean() -> Seq<u32> {
    seq![0x3EF8_51ECu32, 0x3EE9_78D5u32, 0x3ECF_DF3Bu32]
}

/// ImageNet standard deviation `[0.229, 0.224, 0.225]`.
pub open spec fn spec_imagenet_std() -> Seq<u32> {
    seq![0x3E6A_7EFAu32, 0x3E65_6042u32, 0x3E66_6666u32]
}

/// SAM raw-pixel mean `[123.675, 116.28, 103.53]`.
pub open spec fn spec_sam_image_mean() -> Seq<u32> {
    seq![0x42F7_599Au32, 0x42E8_8F5Cu32, 0x42CF_0F5Cu32]
}

/// SAM raw-pixel standard deviation `[58.395, 57.12, 57.375]`.
pub open spec fn spec_sam_image_std() -> Seq<u32> {
    seq![0x4269_947Bu32, 0x4264_7AE1u32, 0x4265_8000u32]
}

/// Returns `1 / 255` as an `f32` bit pattern.
pub fn default_rescale_factor() -> (r: u32)
    ensures
        r == spec_default_rescale_factor(),
{
    0x3B80_8081u32
}

/// Returns `1.0` as an `f32` bit pattern.
pub fn unit_rescale_factor() -> (r: u32)
    ensures
        r == spec_unit_rescale_factor(),
{
    0x3F80_0000u32
}

/// Returns the Diffusers VAE normalization mean.
pub fn diffusion_vae_image_mean() -> (r: Vec<u32>)
    ensures
        r@ == spec_diffusion_vae_image_mean(),
{
    let r = vec![0x3F00_0000u32, 0x3F00_0000u32, 0x3F00_0000u32];
    assert(r@ =~= spec_diffusion_vae_image_mean());
    r
}

/// Returns the Diffusers VAE normalization standard deviation.
pub fn diffusion_vae_image_std() -> (r: Vec<u32>)
    ensures
        r@ == spec_diffusion_vae_image_std(),
{
    let r = vec![0x3F00_0000u32, 0x3F00_0000u32, 0x3F00_0000u32];
    assert(r@ =~= spec_diffusion_vae_image_std());
    r
}

/// Returns the ImageNet normalization mean.
pub fn imagenet_mean() -> (r: Vec<u32>)
    ensures
        r@ == spec_imagenet_mean(),
{
    let r = vec![0x3EF8_51ECu32, 0x3EE9_78D5u32, 0x3ECF_DF3Bu32];
    assert(r@ =~= spec_imagenet_mean());
    r
}

/// Returns the ImageNet normalization standard deviation.
pub fn imagenet_std() -> (r: Vec<u32>)
    ensures
        r@ == spec_imagenet_std(),
{
    let r = vec![0x3E6A_7EFAu32, 0x3E65_6042u32, 0x3E66_6666u32];
    assert(r@ =~= spec_imagenet_std());
    r
}

/// Returns the SAM raw-pixel normalization mean.
pub fn sam_image_mean() -> (r: Vec<u32>)
    ensures
        r@ == spec_sam_image_mean(),
{
    let r = vec![0x42F7_599Au32, 0x42E8_8F5Cu32, 0x42CF_0F5Cu32];
    assert(r@ =~= spec_sam_image_mean());
    r
}

/// Returns the SAM raw-pixel normalization standard deviation.
pub fn sam_image_std() -> (r: Vec<u32>)
    ensures
        r@ == spec_sam_image_std(),
{
    let r = vec![0x4269_947Bu32, 0x4264_7AE1u32, 0x4265_8000u32];
    assert(r@ =~= spec_sam_image_std());
    r
}

/// The settings of a fixed-size family that lowers to the generic tensor stage.
#[derive(Clone, Debug, PartialEq, Eq)]
pub struct FixedImageProcessorSpec {
    /// Fixed output size.
    pub image_size: ImageSize,
    /// Output axis order.
    pub output_layout: ImageLayout,
    /// Resize mode.
    pub resize_mode: ResizeMode,
    /// Resize filter.
    pub resample: ResizeFilter,
    /// Resize parity policy.
    pub resize_parity: ResizeParity,
    /// Image decode backend.
    pub decode_backend: ImageDecodeBackend,
    /// Batch execution policy.
    pub batch_execution: BatchExecution,
    /// Whether values are rescaled.
    pub do_rescale: bool,
    /// Rescale factor, as an `f32` bit pattern.
    pub rescale_factor: u32,
    /// Whether values are normalized.
    pub do_normalize: bool,
    /// Per-channel means, as `f32` bit patterns.
    pub image_mean: Vec<u32>,
    /// Per-channel standard deviations, as `f32` bit patterns.
    pub image_std: Vec<u32>,
}

/// The generic config of a fixed-size family: resize to `image_size` with RGB input.
pub open spec fn spec_fixed_image_processor_config(spec: FixedImageProcessorSpec) -> ImageProcessorConfig {
    ImageProcessorConfig {
        do_resize: true,
        height: Some(spec.image_size.height),
        width: Some(spec.image_size.width),
        resize_mode: spec.resize_mode,
        resample: spec.resample,
        resize_parity: spec.resize_parity,
        decode_backend: spec.decode_backend,
        batch_execution: spec.batch_execution,
        pixel_format: Some(PixelFormat::Rgb8),
        do_rescale: spec.do_rescale,
        rescale_factor: spec.rescale_factor,
        do_normalize: spec.do_normalize,
        image_mean: spec.image_mean,
        image_std: spec.image_std,
        do_binarize: false,
        output_layout: spec_batched_layout_for_image_layout(spec.output_layout),
    }
}

/// Lowers a fixed-size family spec to the generic tensor-stage config.
pub fn fixed_image_processor_config(spec: FixedImageProcessorSpec) -> (r: ImageProcessorConfig)
    ensures
        r == spec_fixed_image_processor_config(spec),
{
    let output_layout = batched_layout_for_image_layout(spec.output_layout);
    ImageProcessorConfig {
        do_resize: true,
        height: Some(spec.image_size.height),
        width: Some(spec.image_size.width),
        resize_mode: spec.resize_mode,
        resample: spec.resample,
        resize_parity: spec.resize_parity,
        decode_backend: spec.decode_backend,
        batch_execution: spec.batch_execution,
        pixel_format: Some(PixelFormat::Rgb8),
        do_rescale: spec.do_rescale,
        rescale_factor: spec.rescale_factor,
        do_normalize: spec.do_normalize,
        image_mean: spec.image_mean,
        image_std: spec.image_std,
        do_binarize: false,
        output_layout,
    }
}

/// Per-call size and resize-mode overrides.
#[derive(Clone, Copy, Debug, PartialEq, Eq, Structural)]
pub struct ImageProcessorOptions {
    /// Requested height.
    pub height: Option<usize>,
    /// Requested width.
    pub width: Option<usize>,
    /// Requested resize mode.
    pub resize_mode: Option<ResizeMode>,
}

impl Default for ImageProcessorOptions {
    fn default() -> (r: Self)
        ensures
            r == (ImageProcessorOptions { height: None, width: None, resize_mode: None }),
    {
        ImageProcessorOptions { height: None, width: None, resize_mode: None }
    }
}

/// The generic tensor stage, described by the configuration it runs with.
#[derive(Debug, PartialEq, Eq)]
pub struct ImageProcessor {
    config: ImageProcessorConfig,
}

impl ImageProcessor {
    /// The configuration this stage runs with.
    pub closed spec fn spec_config(&self) -> ImageProcessorConfig {
        self.config
    }

    /// Creates the tensor stage for `config`.
    pub fn from_config(config: ImageProcessorConfig) -> (r: ImageProcessor)
        ensures
            r.spec_config() == config,
    {
        ImageProcessor { config }
    }

    /// Returns a copy of this tensor stage.
    pub fn duplicate(&self) -> (r: ImageProcessor)
        ensures
            same_config(r.spec_config(), self.spec_config()),
    {
        ImageProcessor { config: duplicate_config(&self.config) }
    }

    /// Returns the configuration of this tensor stage.
    pub fn config(&self) -> (r: &ImageProcessorConfig)
        ensures
            *r == self.spec_config(),
    {
        &self.config
    }
}

} // verus!

verus! {

impl Clone for ImageProcessor {
    fn clone(&self) -> (r: Self)
        ensures
            same_config(r.spec_config(), self.spec_config()),
    {
        self.duplicate()
    }
}

} // verus!
