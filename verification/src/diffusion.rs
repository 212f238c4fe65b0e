//! Diffusers-oriented processor families: BLIP, Flux2, HunyuanVideo 1.5, JoyImage
//! edit, Wan Animate and LTX2 HDR video.

use vstd::prelude::*;

use crate::errors::{ImageProcessorError, TransformError};
use crate::families::{clip_image_mean, clip_image_std, spec_clip_image_mean, spec_clip_image_std, DEFAULT_RESCALE_FACTOR};
use crate::generic::{
    config_is, ImageProcessorOptions, default_rescale_factor, diffusion_vae_image_mean, diffusion_vae_image_std,
    spec_default_rescale_factor, spec_diffusion_vae_image_mean, spec_diffusion_vae_image_std,
    ImageProcessor, ImageProcessorConfig,
};
use crate::geometry::{spec_image_size_new, ImageSize};
use crate::indexing::{lemma_quotient_below, lemma_split};
use crate::layout::{
    batched_layout_for_image_layout, image_layout_for_video_layout,
    spec_batched_layout_for_image_layout, spec_image_layout_for_video_layout,
    channel_last_source, spec_video_layout_for_image_layout, to_channel_last, video_layout_for_image_layout, ImageLayout,
    Layout, VideoLayout,
};
use crate::media::ImageFrame;
use crate::settings::{
    resize_decision_for_parts, BatchExecution, ImageDecodeBackend, PixelFormat, ResizeDecision,
    ResizeFilter, ResizeMode, ResizeParity,
};
use crate::vae::{
    TensorValues, spec_validate_vae_config, vae_generic_config, validate_vae_config, VaeImageProcessor,
    VaeImageProcessorConfig,
};

verus! {

/// Default VAE scale factor of Flux2.
pub const FLUX2_VAE_SCALE_FACTOR: usize = 16;
/// Default VAE latent channel count of Flux2.
pub const FLUX2_VAE_LATENT_CHANNELS: usize = 32;
/// Default VAE scale factor of HunyuanVideo 1.5.
pub const HUNYUAN_VIDEO_15_VAE_SCALE_FACTOR: usize = 16;
/// Default VAE latent channel count of HunyuanVideo 1.5.
pub const HUNYUAN_VIDEO_15_VAE_LATENT_CHANNELS: usize = 32;
/// The only JoyImage bucket-table base size.
pub const JOY_IMAGE_BASE_SIZE: usize = 1024;

/// Edge of the square BLIP resize target.
pub const BLIP_IMAGE_SIZE: usize = 384;

/// Configuration of Diffusers BLIP image conditioning. Floating-point settings
/// hold IEEE-754 bit patterns.
#[derive(Clone, Debug, PartialEq, Eq)]
pub struct BlipImageProcessorConfig {
    /// Exact resize target used before optional center cropping.
    pub size: ImageSize,
    /// Whether images are resized to `size`.
    pub do_resize: bool,
    /// Whether images are center-cropped to `size`.
    pub do_center_crop: bool,
    /// Output axis order.
    pub output_layout: ImageLayout,
    /// Resize filter.
    pub resample: ResizeFilter,
    /// Resize parity policy.
    pub resize_parity: ResizeParity,
    /// Image decode backend.
    pub decode_backend: ImageDecodeBackend,
    /// Batch execution policy.
    pub batch_execution: BatchExecution,
    /// Optional pixel-format conversion before tensor conversion.
    pub pixel_format: Option<PixelFormat>,
    /// Whether values are multiplied by `rescale_factor`.
    pub do_rescale: bool,
    /// Rescale factor.
    pub rescale_factor: u32,
    /// Whether per-channel normalization is applied.
    pub do_normalize: bool,
    /// Per-channel means.
    pub image_mean: Vec<u32>,
    /// Per-channel standard deviations.
    pub image_std: Vec<u32>,
}

impl Default for BlipImageProcessorConfig {
    fn default() -> (r: Self)
        ensures
            r.size == (ImageSize { height: BLIP_IMAGE_SIZE, width: BLIP_IMAGE_SIZE }),
            r.do_resize,
            r.do_center_crop,
            r.output_layout == ImageLayout::ChannelsHeightWidth,
            r.resample == ResizeFilter::Bicubic,
            r.resize_parity == ResizeParity::Compatibility,
            r.decode_backend == ImageDecodeBackend::ImageCrate,
            r.batch_execution == BatchExecution::Sequential,
            r.pixel_format == Some(PixelFormat::Rgb8),
            r.do_rescale,
            r.rescale_factor == DEFAULT_RESCALE_FACTOR,
            r.do_normalize,
            r.image_mean@ == spec_clip_image_mean(),
            r.image_std@ == spec_clip_image_std(),
    {
        BlipImageProcessorConfig {
            size: ImageSize { height: BLIP_IMAGE_SIZE, width: BLIP_IMAGE_SIZE },
            do_resize: true,
            do_center_crop: true,
            output_layout: ImageLayout::ChannelsHeightWidth,
            resample: ResizeFilter::Bicubic,
            resize_parity: ResizeParity::Compatibility,
            decode_backend: ImageDecodeBackend::ImageCrate,
            batch_execution: BatchExecution::Sequential,
            pixel_format: Some(PixelFormat::Rgb8),
            do_rescale: true,
            rescale_factor: DEFAULT_RESCALE_FACTOR,
            do_normalize: true,
            image_mean: clip_image_mean(),
            image_std: clip_image_std(),
        }
    }
}

/// The generic tensor-stage config of a BLIP config: resize to `size` when
/// resizing, with the BLIP conversion and normalization settings.
pub open spec fn blip_generic_config(c: BlipImageProcessorConfig, r: ImageProcessorConfig) -> bool {
    config_is(
        r,
        c.do_resize,
        Some(c.size.height),
        Some(c.size.width),
        ResizeMode::Default,
        c.resample,
        c.resize_parity,
        c.decode_backend,
        c.batch_execution,
        c.pixel_format,
        c.do_rescale,
        c.rescale_factor,
        c.do_normalize,
        c.image_mean@,
        c.image_std@,
        false,
        spec_batched_layout_for_image_layout(c.output_layout),
    )
}

impl BlipImageProcessorConfig {
    /// Returns the image output axis order.
    pub fn output_image_layout(&self) -> (r: ImageLayout)
        ensures
            r == self.output_layout,
    {
        self.output_layout
    }

    /// Returns the video output axis order implied by `output_layout`.
    pub fn output_video_layout(&self) -> (r: VideoLayout)
        ensures
            r == spec_video_layout_for_image_layout(self.output_layout),
    {
        video_layout_for_image_layout(self.output_layout)
    }

    /// Returns the resize decision implied by `resample` and `resize_parity`.
    pub fn resize_decision(&self) -> (r: ResizeDecision)
        ensures
            r == (ResizeDecision { filter: self.resample, parity: self.resize_parity }),
    {
        resize_decision_for_parts(self.resample, self.resize_parity)
    }

    /// Converts this family config into the generic image processor config.
    pub fn image_processor_config(&self) -> (r: ImageProcessorConfig)
        ensures
            blip_generic_config(*self, r),
    {
        ImageProcessorConfig {
            do_resize: self.do_resize,
            height: Some(self.size.height),
            width: Some(self.size.width),
            resize_mode: ResizeMode::Default,
            resample: self.resample,
            resize_parity: self.resize_parity,
            decode_backend: self.decode_backend,
            batch_execution: self.batch_execution,
            pixel_format: self.pixel_format,
            do_rescale: self.do_rescale,
            rescale_factor: self.rescale_factor,
            do_normalize: self.do_normalize,
            image_mean: self.image_mean.clone(),
            image_std: self.image_std.clone(),
            do_binarize: false,
            output_layout: batched_layout_for_image_layout(self.output_layout),
        }
    }
}

/// The VAE config that BLIP postprocessing runs with: the VAE defaults
/// without resizing, on RGB input.
pub open spec fn blip_postprocess_config() -> VaeImageProcessorConfig {
    VaeImageProcessorConfig {
        do_resize: false,
        vae_scale_factor: 8,
        vae_latent_channels: 4,
        output_layout: ImageLayout::ChannelsHeightWidth,
        resample: ResizeFilter::Lanczos,
        resize_parity: ResizeParity::Compatibility,
        decode_backend: ImageDecodeBackend::ImageCrate,
        batch_execution: BatchExecution::Sequential,
        pixel_format: Some(PixelFormat::Rgb8),
        do_normalize: true,
        do_binarize: false,
    }
}

/// Diffusers BLIP image processor.
#[derive(Clone, Debug)]
pub struct BlipImageProcessor {
    config: BlipImageProcessorConfig,
    processor: ImageProcessor,
    postprocessor: VaeImageProcessor,
}

impl BlipImageProcessor {
    /// The BLIP configuration.
    pub closed spec fn spec_config(&self) -> BlipImageProcessorConfig {
        self.config
    }

    /// The tensor stage of preprocessing.
    pub closed spec fn spec_image_processor(&self) -> ImageProcessor {
        self.processor
    }

    /// The VAE-style processor of postprocessing.
    pub closed spec fn spec_postprocessor(&self) -> VaeImageProcessor {
        self.postprocessor
    }

    /// Creates a processor from a BLIP configuration; a zero resize dimension
    /// is rejected.
    pub fn new(config: BlipImageProcessorConfig) -> (r: Result<BlipImageProcessor, ImageProcessorError>)
        ensures
            match spec_image_size_new(config.size.height, config.size.width) {
                Err(e) => r == Err::<BlipImageProcessor, ImageProcessorError>(ImageProcessorError::Transform(e)),
                Ok(_) => r matches Ok(p) && p.spec_config() == config && blip_generic_config(
                    config,
                    p.spec_image_processor().spec_config(),
                ) && p.spec_postprocessor().spec_config() == blip_postprocess_config(),
            },
    {
        if let Err(e) = validate_blip_config(&config) {
            return Err(e);
        }
        let processor = ImageProcessor::from_config(config.image_processor_config());
        let mut post_config = VaeImageProcessorConfig::default();
        post_config.do_resize = false;
        post_config.pixel_format = Some(PixelFormat::Rgb8);
        post_config.do_normalize = true;
        let postprocessor = match VaeImageProcessor::new(post_config) {
            Ok(p) => p,
            Err(e) => return Err(e),
        };
        Ok(BlipImageProcessor { config, processor, postprocessor })
    }

    /// Returns this processor's BLIP configuration.
    pub fn config(&self) -> (r: &BlipImageProcessorConfig)
        ensures
            *r == self.spec_config(),
    {
        &self.config
    }

    /// Returns the underlying tensor-stage image processor.
    pub fn image_processor(&self) -> (r: &ImageProcessor)
        ensures
            *r == self.spec_image_processor(),
    {
        &self.processor
    }
}

/// Configuration of Diffusers Flux2 image conditioning.
#[derive(Clone, Copy, Debug, PartialEq, Eq, Structural)]
pub struct Flux2ImageProcessorConfig {
    /// Whether images are resized to VAE-scale multiples.
    pub do_resize: bool,
    /// VAE scale factor that dimensions are rounded down to.
    pub vae_scale_factor: usize,
    /// Channel count of Flux2 latent tensors.
    pub vae_latent_channels: usize,
    /// Output axis order.
    pub output_layout: ImageLayout,
    /// Resize filter.
    pub resample: ResizeFilter,
    /// Resize parity policy.
    pub resize_parity: ResizeParity,
    /// Image decode backend.
    pub decode_backend: ImageDecodeBackend,
    /// Batch execution policy.
    pub batch_execution: BatchExecution,
    /// Optional pixel-format conversion.
    pub pixel_format: Option<PixelFormat>,
    /// Whether values are normalized from `[0, 1]` to `[-1, 1]`.
    pub do_normalize: bool,
    /// Whether values are thresholded to zero or one.
    pub do_binarize: bool,
}

impl Default for Flux2ImageProcessorConfig {
    fn default() -> (r: Self)
        ensures
            r == (Flux2ImageProcessorConfig {
                do_resize: true,
                vae_scale_factor: FLUX2_VAE_SCALE_FACTOR,
                vae_latent_channels: FLUX2_VAE_LATENT_CHANNELS,
                output_layout: ImageLayout::ChannelsHeightWidth,
                resample: ResizeFilter::Lanczos,
                resize_parity: ResizeParity::Compatibility,
                decode_backend: ImageDecodeBackend::ImageCrate,
                batch_execution: BatchExecution::Sequential,
                pixel_format: Some(PixelFormat::Rgb8),
                do_normalize: true,
                do_binarize: false,
            }),
    {
        Flux2ImageProcessorConfig {
            do_resize: true,
            vae_scale_factor: FLUX2_VAE_SCALE_FACTOR,
            vae_latent_channels: FLUX2_VAE_LATENT_CHANNELS,
            output_layout: ImageLayout::ChannelsHeightWidth,
            resample: ResizeFilter::Lanczos,
            resize_parity: ResizeParity::Compatibility,
            decode_backend: ImageDecodeBackend::ImageCrate,
            batch_execution: BatchExecution::default(),
            pixel_format: Some(PixelFormat::Rgb8),
            do_normalize: true,
            do_binarize: false,
        }
    }
}

/// The VAE config a Flux2 config stands for: the same settings, field for field.
pub open spec fn spec_flux2_vae_config(c: Flux2ImageProcessorConfig) -> VaeImageProcessorConfig {
    VaeImageProcessorConfig {
        do_resize: c.do_resize,
        vae_scale_factor: c.vae_scale_factor,
        vae_latent_channels: c.vae_latent_channels,
        output_layout: c.output_layout,
        resample: c.resample,
        resize_parity: c.resize_parity,
        decode_backend: c.decode_backend,
        batch_execution: c.batch_execution,
        pixel_format: c.pixel_format,
        do_normalize: c.do_normalize,
        do_binarize: c.do_binarize,
    }
}

impl Flux2ImageProcessorConfig {
    /// Returns the image output axis order.
    pub fn output_image_layout(&self) -> (r: ImageLayout)
        ensures
            r == self.output_layout,
    {
        self.output_layout
    }

    /// Returns the video output axis order implied by `output_layout`.
    pub fn output_video_layout(&self) -> (r: VideoLayout)
        ensures
            r == spec_video_layout_for_image_layout(self.output_layout),
    {
        video_layout_for_image_layout(self.output_layout)
    }

    /// Returns the resize decision implied by `resample` and `resize_parity`.
    pub fn resize_decision(&self) -> (r: ResizeDecision)
        ensures
            r == (ResizeDecision { filter: self.resample, parity: self.resize_parity }),
    {
        resize_decision_for_parts(self.resample, self.resize_parity)
    }

    /// Returns the VAE config that runs Flux2 preprocessing.
    pub fn vae_image_processor_config(&self) -> (r: VaeImageProcessorConfig)
        ensures
            r == spec_flux2_vae_config(*self),
    {
        VaeImageProcessorConfig {
            do_resize: self.do_resize,
            vae_scale_factor: self.vae_scale_factor,
            vae_latent_channels: self.vae_latent_channels,
            output_layout: self.output_layout,
            resample: self.resample,
            resize_parity: self.resize_parity,
            decode_backend: self.decode_backend,
            batch_execution: self.batch_execution,
            pixel_format: self.pixel_format,
            do_normalize: self.do_normalize,
            do_binarize: self.do_binarize,
        }
    }

    /// Lowers this config to the generic tensor-stage config, through its VAE config.
    pub fn image_processor_config(&self) -> (r: ImageProcessorConfig)
        ensures
            vae_generic_config(spec_flux2_vae_config(*self), r),
    {
        self.vae_image_processor_config().image_processor_config()
    }
}

/// Configuration of Diffusers HunyuanVideo 1.5 image and video conditioning.
#[derive(Clone, Copy, Debug, PartialEq, Eq, Structural)]
pub struct HunyuanVideo15ImageProcessorConfig {
    /// Whether images and frames are resized to VAE-scale multiples.
    pub do_resize: bool,
    /// VAE scale factor.
    pub vae_scale_factor: usize,
    /// Channel count of latent tensors.
    pub vae_latent_channels: usize,
    /// Output axis order.
    pub output_layout: ImageLayout,
    /// Resize filter.
    pub resample: ResizeFilter,
    /// Resize parity policy.
    pub resize_parity: ResizeParity,
    /// Image decode backend.
    pub decode_backend: ImageDecodeBackend,
    /// Batch execution policy.
    pub batch_execution: BatchExecution,
    /// Optional pixel-format conversion.
    pub pixel_format: Option<PixelFormat>,
    /// Whether values are normalized from `[0, 1]` to `[-1, 1]`.
    pub do_normalize: bool,
    /// Whether values are thresholded to zero or one.
    pub do_binarize: bool,
}

impl Default for HunyuanVideo15ImageProcessorConfig {
    fn default() -> (r: Self)
        ensures
            r == (HunyuanVideo15ImageProcessorConfig {
                do_resize: true,
                vae_scale_factor: HUNYUAN_VIDEO_15_VAE_SCALE_FACTOR,
                vae_latent_channels: HUNYUAN_VIDEO_15_VAE_LATENT_CHANNELS,
                output_layout: ImageLayout::ChannelsHeightWidth,
                resample: ResizeFilter::Lanczos,
                resize_parity: ResizeParity::Compatibility,
                decode_backend: ImageDecodeBackend::ImageCrate,
                batch_execution: BatchExecution::Sequential,
                pixel_format: Some(PixelFormat::Rgb8),
                do_normalize: true,
                do_binarize: false,
            }),
    {
        HunyuanVideo15ImageProcessorConfig {
            do_resize: true,
            vae_scale_factor: HUNYUAN_VIDEO_15_VAE_SCALE_FACTOR,
            vae_latent_channels: HUNYUAN_VIDEO_15_VAE_LATENT_CHANNELS,
            output_layout: ImageLayout::ChannelsHeightWidth,
            resample: ResizeFilter::Lanczos,
            resize_parity: ResizeParity::Compatibility,
            decode_backend: ImageDecodeBackend::ImageCrate,
            batch_execution: BatchExecution::default(),
            pixel_format: Some(PixelFormat::Rgb8),
            do_normalize: true,
            do_binarize: false,
        }
    }
}

/// The VAE config a HunyuanVideo 1.5 config stands for: the same settings.
pub open spec fn spec_hunyuan_vae_config(c: HunyuanVideo15ImageProcessorConfig) -> VaeImageProcessorConfig {
    VaeImageProcessorConfig {
        do_resize: c.do_resize,
        vae_scale_factor: c.vae_scale_factor,
        vae_latent_channels: c.vae_latent_channels,
        output_layout: c.output_layout,
        resample: c.resample,
        resize_parity: c.resize_parity,
        decode_backend: c.decode_backend,
        batch_execution: c.batch_execution,
        pixel_format: c.pixel_format,
        do_normalize: c.do_normalize,
        do_binarize: c.do_binarize,
    }
}

impl HunyuanVideo15ImageProcessorConfig {
    /// Returns the image output axis order.
    pub fn output_image_layout(&self) -> (r: ImageLayout)
        ensures
            r == self.output_layout,
    {
        self.output_layout
    }

    /// Returns the video output axis order implied by `output_layout`.
    pub fn output_video_layout(&self) -> (r: VideoLayout)
        ensures
            r == spec_video_layout_for_image_layout(self.output_layout),
    {
        video_layout_for_image_layout(self.output_layout)
    }

    /// Returns the resize decision implied by `resample` and `resize_parity`.
    pub fn resize_decision(&self) -> (r: ResizeDecision)
        ensures
            r == (ResizeDecision { filter: self.resample, parity: self.resize_parity }),
    {
        resize_decision_for_parts(self.resample, self.resize_parity)
    }

    /// Returns the underlying VAE processor config.
    pub fn vae_image_processor_config(&self) -> (r: VaeImageProcessorConfig)
        ensures
            r == spec_hunyuan_vae_config(*self),
    {
        VaeImageProcessorConfig {
            do_resize: self.do_resize,
            vae_scale_factor: self.vae_scale_factor,
            vae_latent_channels: self.vae_latent_channels,
            output_layout: self.output_layout,
            resample: self.resample,
            resize_parity: self.resize_parity,
            decode_backend: self.decode_backend,
            batch_execution: self.batch_execution,
            pixel_format: self.pixel_format,
            do_normalize: self.do_normalize,
            do_binarize: self.do_binarize,
        }
    }

    /// Lowers this config to the generic tensor-stage config, through its VAE config.
    pub fn image_processor_config(&self) -> (r: ImageProcessorConfig)
        ensures
            vae_generic_config(spec_hunyuan_vae_config(*self), r),
    {
        self.vae_image_processor_config().image_processor_config()
    }
}

/// Configuration of Diffusers JoyImage edit image conditioning.
#[derive(Clone, Copy, Debug, PartialEq, Eq, Structural)]
pub struct JoyImageEditImageProcessorConfig {
    /// Whether inputs are bucket-resized and center-cropped.
    pub do_resize: bool,
    /// VAE scale factor kept for config compatibility.
    pub vae_scale_factor: usize,
    /// Base size of the bucket table.
    pub basesize: usize,
    /// Output axis order.
    pub output_layout: ImageLayout,
    /// Resize filter.
    pub resample: ResizeFilter,
    /// Resize parity policy.
    pub resize_parity: ResizeParity,
    /// Image decode backend.
    pub decode_backend: ImageDecodeBackend,
    /// Batch execution policy.
    pub batch_execution: BatchExecution,
    /// Optional pixel-format conversion.
    pub pixel_format: Option<PixelFormat>,
    /// Whether values are normalized from `[0, 1]` to `[-1, 1]`.
    pub do_normalize: bool,
    /// Whether values are thresholded to zero or one.
    pub do_binarize: bool,
}

impl Default for JoyImageEditImageProcessorConfig {
    fn default() -> (r: Self)
        ensures
            r == (JoyImageEditImageProcessorConfig {
                do_resize: true,
                vae_scale_factor: 8,
                basesize: JOY_IMAGE_BASE_SIZE,
                output_layout: ImageLayout::ChannelsHeightWidth,
                resample: ResizeFilter::Bilinear,
                resize_parity: ResizeParity::Compatibility,
                decode_backend: ImageDecodeBackend::ImageCrate,
                batch_execution: BatchExecution::Sequential,
                pixel_format: None,
                do_normalize: true,
                do_binarize: false,
            }),
    {
        JoyImageEditImageProcessorConfig {
            do_resize: true,
            vae_scale_factor: 8,
            basesize: JOY_IMAGE_BASE_SIZE,
            output_layout: ImageLayout::ChannelsHeightWidth,
            resample: ResizeFilter::Bilinear,
            resize_parity: ResizeParity::Compatibility,
            decode_backend: ImageDecodeBackend::ImageCrate,
            batch_execution: BatchExecution::default(),
            pixel_format: None,
            do_normalize: true,
            do_binarize: false,
        }
    }
}

/// The tensor-stage config of JoyImage: geometry is resolved before it, so no resize.
pub open spec fn joy_generic_config(c: JoyImageEditImageProcessorConfig, r: ImageProcessorConfig) -> bool {
    config_is(
        r,
        false,
        None,
        None,
        ResizeMode::Default,
        c.resample,
        c.resize_parity,
        c.decode_backend,
        c.batch_execution,
        c.pixel_format,
        true,
        spec_default_rescale_factor(),
        c.do_normalize,
        spec_diffusion_vae_image_mean(),
        spec_diffusion_vae_image_std(),
        c.do_binarize,
        spec_batched_layout_for_image_layout(c.output_layout),
    )
}

impl JoyImageEditImageProcessorConfig {
    /// Returns the image output axis order.
    pub fn output_image_layout(&self) -> (r: ImageLayout)
        ensures
            r == self.output_layout,
    {
        self.output_layout
    }

    /// Returns the video output axis order implied by `output_layout`.
    pub fn output_video_layout(&self) -> (r: VideoLayout)
        ensures
            r == spec_video_layout_for_image_layout(self.output_layout),
    {
        video_layout_for_image_layout(self.output_layout)
    }

    /// Returns the resize decision implied by `resample` and `resize_parity`.
    pub fn resize_decision(&self) -> (r: ResizeDecision)
        ensures
            r == (ResizeDecision { filter: self.resample, parity: self.resize_parity }),
    {
        resize_decision_for_parts(self.resample, self.resize_parity)
    }

    /// Lowers this config to the tensor-stage config.
    pub fn image_processor_config(&self) -> (r: ImageProcessorConfig)
        ensures
            joy_generic_config(*self, r),
    {
        ImageProcessorConfig {
            do_resize: false,
            height: None,
            width: None,
            resize_mode: ResizeMode::Default,
            resample: self.resample,
            resize_parity: self.resize_parity,
            decode_backend: self.decode_backend,
            batch_execution: self.batch_execution,
            pixel_format: self.pixel_format,
            do_rescale: true,
            rescale_factor: default_rescale_factor(),
            do_normalize: self.do_normalize,
            image_mean: diffusion_vae_image_mean(),
            image_std: diffusion_vae_image_std(),
            do_binarize: self.do_binarize,
            output_layout: batched_layout_for_image_layout(self.output_layout),
        }
    }
}

/// Fill used for the canvas around a fitted image.
#[derive(Clone, Debug, PartialEq, Eq)]
pub enum CanvasFill {
    /// A constant per-channel value.
    Constant(Vec<u8>),
}

/// Configuration of Diffusers Wan Animate image conditioning.
#[derive(Clone, Debug, PartialEq, Eq)]
pub struct WanAnimateImageProcessorConfig {
    /// Whether inputs are resized to Wan spatial multiples.
    pub do_resize: bool,
    /// VAE scale factor, multiplied with `spatial_patch_size` for the target multiples.
    pub vae_scale_factor: usize,
    /// Channel count of latent tensors.
    pub vae_latent_channels: usize,
    /// Spatial patch height and width of the diffusion transformer.
    pub spatial_patch_size: ImageSize,
    /// Output axis order.
    pub output_layout: ImageLayout,
    /// Resize filter.
    pub resample: ResizeFilter,
    /// Image decode backend.
    pub decode_backend: ImageDecodeBackend,
    /// Batch execution policy.
    pub batch_execution: BatchExecution,
    /// Optional pixel-format conversion.
    pub pixel_format: Option<PixelFormat>,
    /// Canvas fill of the fill-mode resize.
    pub fill: CanvasFill,
    /// Whether values are normalized from `[0, 1]` to `[-1, 1]`.
    pub do_normalize: bool,
    /// Whether values are thresholded to zero or one.
    pub do_binarize: bool,
}

impl Default for WanAnimateImageProcessorConfig {
    fn default() -> (r: Self)
        ensures
            r.do_resize,
            r.vae_scale_factor == 8,
            r.vae_latent_channels == 16,
            r.spatial_patch_size == (ImageSize { height: 2, width: 2 }),
            r.output_layout == ImageLayout::ChannelsHeightWidth,
            r.resample == ResizeFilter::Lanczos,
            r.decode_backend == ImageDecodeBackend::ImageCrate,
            r.batch_execution == BatchExecution::Sequential,
            r.pixel_format == Some(PixelFormat::Rgb8),
            r.fill matches CanvasFill::Constant(v) && v@ == seq![0u8],
            r.do_normalize,
            !r.do_binarize,
    {
        let fill_value = vec![0u8];
        assert(fill_value@ =~= seq![0u8]);
        WanAnimateImageProcessorConfig {
            do_resize: true,
            vae_scale_factor: 8,
            vae_latent_channels: 16,
            spatial_patch_size: ImageSize { height: 2, width: 2 },
            output_layout: ImageLayout::ChannelsHeightWidth,
            resample: ResizeFilter::Lanczos,
            decode_backend: ImageDecodeBackend::ImageCrate,
            batch_execution: BatchExecution::default(),
            pixel_format: Some(PixelFormat::Rgb8),
            fill: CanvasFill::Constant(fill_value),
            do_normalize: true,
            do_binarize: false,
        }
    }
}

/// The target multiples of Wan: the VAE scale factor times the spatial patch size.
pub open spec fn spec_wan_animate_multiples(c: WanAnimateImageProcessorConfig) -> Result<ImageSize, ImageProcessorError> {
    if c.vae_scale_factor * c.spatial_patch_size.height > usize::MAX
        || c.vae_scale_factor * c.spatial_patch_size.width > usize::MAX {
        Err(ImageProcessorError::Transform(TransformError::ImageSizeOverflow))
    } else {
        match spec_image_size_new(
            (c.vae_scale_factor * c.spatial_patch_size.height) as usize,
            (c.vae_scale_factor * c.spatial_patch_size.width) as usize,
        ) {
            Err(e) => Err(ImageProcessorError::Transform(e)),
            Ok(s) => Ok(s),
        }
    }
}

/// The Wan target of a source size: each dimension rounded down to its multiple.
pub open spec fn spec_wan_animate_target_size(c: WanAnimateImageProcessorConfig, source: ImageSize) -> Result<ImageSize, ImageProcessorError> {
    if !c.do_resize {
        Ok(source)
    } else {
        match spec_wan_animate_multiples(c) {
            Err(e) => Err(e),
            Ok(m) => match spec_image_size_new(
                (source.height - source.height % m.height) as usize,
                (source.width - source.width % m.width) as usize,
            ) {
                Err(e) => Err(ImageProcessorError::Transform(e)),
                Ok(s) => Ok(s),
            },
        }
    }
}

/// The Wan config check.
pub open spec fn spec_validate_wan_animate_config(c: WanAnimateImageProcessorConfig) -> Result<(), ImageProcessorError> {
    if c.vae_scale_factor == 0 {
        Err(ImageProcessorError::Transform(TransformError::InvalidScaleFactor(c.vae_scale_factor)))
    } else if c.vae_latent_channels == 0 {
        Err(ImageProcessorError::InvalidVaeLatentChannels(c.vae_latent_channels))
    } else {
        match spec_image_size_new(c.spatial_patch_size.height, c.spatial_patch_size.width) {
            Err(e) => Err(ImageProcessorError::Transform(e)),
            Ok(_) => match spec_wan_animate_multiples(c) {
                Err(e) => Err(e),
                Ok(_) => Ok(()),
            },
        }
    }
}

/// Returns the Wan target multiples.
fn wan_animate_multiples(config: &WanAnimateImageProcessorConfig) -> (r: Result<ImageSize, ImageProcessorError>)
    ensures
        r == spec_wan_animate_multiples(*config),
{
    let height = match config.vae_scale_factor.checked_mul(config.spatial_patch_size.height) {
        Some(h) => h,
        None => return Err(ImageProcessorError::Transform(TransformError::ImageSizeOverflow)),
    };
    let width = match config.vae_scale_factor.checked_mul(config.spatial_patch_size.width) {
        Some(w) => w,
        None => return Err(ImageProcessorError::Transform(TransformError::ImageSizeOverflow)),
    };
    match ImageSize::new(height, width) {
        Ok(s) => Ok(s),
        Err(e) => Err(ImageProcessorError::Transform(e)),
    }
}

/// Checks the Wan scale factor, latent channels, patch size and target multiples.
pub fn validate_wan_animate_config(config: &WanAnimateImageProcessorConfig) -> (r: Result<(), ImageProcessorError>)
    ensures
        r == spec_validate_wan_animate_config(*config),
{
    if config.vae_scale_factor == 0 {
        return Err(ImageProcessorError::Transform(TransformError::InvalidScaleFactor(config.vae_scale_factor)));
    }
    if config.vae_latent_channels == 0 {
        return Err(ImageProcessorError::InvalidVaeLatentChannels(config.vae_latent_channels));
    }
    match ImageSize::new(config.spatial_patch_size.height, config.spatial_patch_size.width) {
        Ok(_) => {},
        Err(e) => return Err(ImageProcessorError::Transform(e)),
    }
    match wan_animate_multiples(config) {
        Ok(_) => Ok(()),
        Err(e) => Err(e),
    }
}

/// The tensor-stage config of Wan: geometry is resolved before it, so no resize.
pub open spec fn wan_generic_config(c: WanAnimateImageProcessorConfig, r: ImageProcessorConfig) -> bool {
    config_is(
        r,
        false,
        None,
        None,
        ResizeMode::Default,
        c.resample,
        ResizeParity::Compatibility,
        c.decode_backend,
        c.batch_execution,
        c.pixel_format,
        true,
        spec_default_rescale_factor(),
        c.do_normalize,
        spec_diffusion_vae_image_mean(),
        spec_diffusion_vae_image_std(),
        c.do_binarize,
        spec_batched_layout_for_image_layout(c.output_layout),
    )
}

impl WanAnimateImageProcessorConfig {
    /// Returns the image output axis order.
    pub fn output_image_layout(&self) -> (r: ImageLayout)
        ensures
            r == self.output_layout,
    {
        self.output_layout
    }

    /// Returns the video output axis order implied by `output_layout`.
    pub fn output_video_layout(&self) -> (r: VideoLayout)
        ensures
            r == spec_video_layout_for_image_layout(self.output_layout),
    {
        video_layout_for_image_layout(self.output_layout)
    }

    /// Returns the Wan target for a source or requested size: unchanged when resizing is
    /// off, otherwise each dimension rounded down to its target multiple.
    pub fn target_size_for_size(&self, source_size: ImageSize) -> (r: Result<ImageSize, ImageProcessorError>)
        ensures
            r == spec_wan_animate_target_size(*self, source_size),
    {
        if !self.do_resize {
            return Ok(source_size);
        }
        let multiples = match wan_animate_multiples(self) {
            Ok(m) => m,
            Err(e) => return Err(e),
        };
        assert(source_size.height % multiples.height <= source_size.height) by (nonlinear_arith)
            requires multiples.height > 0;
        assert(source_size.width % multiples.width <= source_size.width) by (nonlinear_arith)
            requires multiples.width > 0;
        match ImageSize::new(
            source_size.height - source_size.height % multiples.height,
            source_size.width - source_size.width % multiples.width,
        ) {
            Ok(s) => Ok(s),
            Err(e) => Err(ImageProcessorError::Transform(e)),
        }
    }

    /// Returns the Wan target for a decoded frame.
    pub fn target_size_for_image(&self, image: &ImageFrame) -> (r: Result<ImageSize, ImageProcessorError>)
        ensures
            match spec_image_size_new(image.spec_height(), image.spec_width()) {
                Err(e) => r == Err::<ImageSize, ImageProcessorError>(ImageProcessorError::Transform(e)),
                Ok(s) => r == spec_wan_animate_target_size(*self, s),
            },
    {
        let size = match ImageSize::new(image.height(), image.width()) {
            Ok(s) => s,
            Err(e) => return Err(ImageProcessorError::Transform(e)),
        };
        self.target_size_for_size(size)
    }

    /// Lowers this config to the tensor-stage config.
    pub fn image_processor_config(&self) -> (r: ImageProcessorConfig)
        ensures
            wan_generic_config(*self, r),
    {
        ImageProcessorConfig {
            do_resize: false,
            height: None,
            width: None,
            resize_mode: ResizeMode::Default,
            resample: self.resample,
            resize_parity: ResizeParity::Compatibility,
            decode_backend: self.decode_backend,
            batch_execution: self.batch_execution,
            pixel_format: self.pixel_format,
            do_rescale: true,
            rescale_factor: default_rescale_factor(),
            do_normalize: self.do_normalize,
            image_mean: diffusion_vae_image_mean(),
            image_std: diffusion_vae_image_std(),
            do_binarize: self.do_binarize,
            output_layout: batched_layout_for_image_layout(self.output_layout),
        }
    }
}

/// Wan target sizes are multiples of the target multiples, never larger than the source.
pub proof fn wan_animate_target_is_aligned(c: WanAnimateImageProcessorConfig, source: ImageSize)
    requires
        c.do_resize,
        spec_wan_animate_target_size(c, source) is Ok,
    ensures
        ({
            let t = spec_wan_animate_target_size(c, source)->Ok_0;
            let m = spec_wan_animate_multiples(c)->Ok_0;
            &&& t.height % m.height == 0
            &&& t.width % m.width == 0
            &&& t.height <= source.height
            &&& t.width <= source.width
        }),
{
    assert(spec_wan_animate_multiples(c) is Ok);
    let m = spec_wan_animate_multiples(c)->Ok_0;
    assert(m.height > 0 && m.width > 0);
    lemma_round_down_aligned(source.height, m.height);
    lemma_round_down_aligned(source.width, m.width);
    let h = (source.height - source.height % m.height) as usize;
    let w = (source.width - source.width % m.width) as usize;
    assert(spec_image_size_new(h, w) is Ok);
    let t = spec_wan_animate_target_size(c, source)->Ok_0;
    assert(t == spec_image_size_new(h, w)->Ok_0);
    assert(t.height == source.height - source.height % m.height);
    assert(t.width == source.width - source.width % m.width);
}

/// Rounding down to a multiple gives a multiple no larger than the value.
proof fn lemma_round_down_aligned(value: usize, multiple: usize)
    requires
        multiple > 0,
    ensures
        (value - value % multiple) % (multiple as int) == 0,
        0 <= value - value % multiple <= value,
{
    let v = value as int;
    let m = multiple as int;
    assert(value % multiple == v % m);
    let q = v / m;
    assert(v - v % m == q * m) by (nonlinear_arith)
        requires m > 0, q == v / m;
    vstd::arithmetic::div_mod::lemma_fundamental_div_mod_converse(q * m, m, q, 0);
    assert(0 <= v % m <= v) by (nonlinear_arith) requires m > 0, v >= 0;
}

/// Configuration of Diffusers LTX2 HDR video processing.
#[derive(Clone, Copy, Debug, PartialEq, Eq, Structural)]
pub struct Ltx2VideoHdrProcessorConfig {
    /// Whether the VAE stage rounds frame dimensions down to scale-factor multiples.
    pub do_resize: bool,
    /// VAE spatial scale factor.
    pub vae_scale_factor: usize,
    /// Video output axis order.
    pub output_layout: VideoLayout,
    /// Resize filter.
    pub resample: ResizeFilter,
    /// Resize parity policy.
    pub resize_parity: ResizeParity,
    /// Image decode backend.
    pub decode_backend: ImageDecodeBackend,
    /// Batch execution policy.
    pub batch_execution: BatchExecution,
}

impl Default for Ltx2VideoHdrProcessorConfig {
    fn default() -> (r: Self)
        ensures
            r == (Ltx2VideoHdrProcessorConfig {
                do_resize: true,
                vae_scale_factor: 32,
                output_layout: VideoLayout::FramesChannelsHeightWidth,
                resample: ResizeFilter::Bilinear,
                resize_parity: ResizeParity::Compatibility,
                decode_backend: ImageDecodeBackend::ImageCrate,
                batch_execution: BatchExecution::Sequential,
            }),
    {
        Ltx2VideoHdrProcessorConfig {
            do_resize: true,
            vae_scale_factor: 32,
            output_layout: VideoLayout::FramesChannelsHeightWidth,
            resample: ResizeFilter::Bilinear,
            resize_parity: ResizeParity::Compatibility,
            decode_backend: ImageDecodeBackend::ImageCrate,
            batch_execution: BatchExecution::default(),
        }
    }
}

/// The base VAE config of LTX2: four latent channels, RGB input, normalization on.
pub open spec fn spec_ltx2_vae_config(c: Ltx2VideoHdrProcessorConfig) -> VaeImageProcessorConfig {
    VaeImageProcessorConfig {
        do_resize: c.do_resize,
        vae_scale_factor: c.vae_scale_factor,
        vae_latent_channels: 4,
        output_layout: spec_image_layout_for_video_layout(c.output_layout),
        resample: c.resample,
        resize_parity: c.resize_parity,
        decode_backend: c.decode_backend,
        batch_execution: c.batch_execution,
        pixel_format: Some(PixelFormat::Rgb8),
        do_normalize: true,
        do_binarize: false,
    }
}

impl Ltx2VideoHdrProcessorConfig {
    /// Returns the video output axis order.
    pub fn output_video_layout(&self) -> (r: VideoLayout)
        ensures
            r == self.output_layout,
    {
        self.output_layout
    }

    /// Returns the resize decision implied by `resample` and `resize_parity`.
    pub fn resize_decision(&self) -> (r: ResizeDecision)
        ensures
            r == (ResizeDecision { filter: self.resample, parity: self.resize_parity }),
    {
        resize_decision_for_parts(self.resample, self.resize_parity)
    }

    /// Returns the base VAE image processor config.
    pub fn vae_image_processor_config(&self) -> (r: VaeImageProcessorConfig)
        ensures
            r == spec_ltx2_vae_config(*self),
    {
        VaeImageProcessorConfig {
            do_resize: self.do_resize,
            vae_scale_factor: self.vae_scale_factor,
            vae_latent_channels: 4,
            output_layout: image_layout_for_video_layout(self.output_layout),
            resample: self.resample,
            resize_parity: self.resize_parity,
            decode_backend: self.decode_backend,
            batch_execution: self.batch_execution,
            pixel_format: Some(PixelFormat::Rgb8),
            do_normalize: true,
            do_binarize: false,
        }
    }

    /// Lowers this config to the generic config of its base VAE stage.
    pub fn image_processor_config(&self) -> (r: ImageProcessorConfig)
        ensures
            vae_generic_config(spec_ltx2_vae_config(*self), r),
    {
        self.vae_image_processor_config().image_processor_config()
    }
}

/// Diffusers LTX2 HDR video processor.
#[derive(Clone, Debug)]
pub struct Ltx2VideoHdrProcessor {
    config: Ltx2VideoHdrProcessorConfig,
    processor: VaeImageProcessor,
}

impl Ltx2VideoHdrProcessor {
    /// The family configuration.
    pub closed spec fn spec_config(&self) -> Ltx2VideoHdrProcessorConfig {
        self.config
    }

    /// The base VAE processor.
    pub closed spec fn spec_vae_processor(&self) -> VaeImageProcessor {
        self.processor
    }

    /// Creates a processor from a validated LTX2 configuration.
    pub fn new(config: Ltx2VideoHdrProcessorConfig) -> (r: Result<Ltx2VideoHdrProcessor, ImageProcessorError>)
        ensures
            match spec_validate_vae_config(spec_ltx2_vae_config(config)) {
                Err(e) => r == Err::<Ltx2VideoHdrProcessor, ImageProcessorError>(e),
                Ok(()) => r matches Ok(p) && p.spec_config() == config
                    && p.spec_vae_processor().spec_config() == spec_ltx2_vae_config(config),
            },
    {
        match validate_vae_config(&config.vae_image_processor_config()) {
            Ok(()) => {},
            Err(e) => return Err(e),
        }
        let processor = match VaeImageProcessor::new(config.vae_image_processor_config()) {
            Ok(p) => p,
            Err(e) => return Err(e),
        };
        Ok(Ltx2VideoHdrProcessor { config, processor })
    }

    /// Returns the family configuration.
    pub fn config(&self) -> (r: &Ltx2VideoHdrProcessorConfig)
        ensures
            *r == self.spec_config(),
    {
        &self.config
    }

    /// Returns the tensor stage of the base VAE processor.
    pub fn image_processor(&self) -> (r: &ImageProcessor)
        ensures
            *r == self.spec_vae_processor().spec_image_processor(),
    {
        self.processor.image_processor()
    }

    /// Returns the base VAE processor.
    pub fn vae_processor(&self) -> (r: &VaeImageProcessor)
        ensures
            *r == self.spec_vae_processor(),
    {
        &self.processor
    }
}

/// Diffusers Flux2 image processor.
#[derive(Clone, Debug)]
pub struct Flux2ImageProcessor {
    config: Flux2ImageProcessorConfig,
    processor: VaeImageProcessor,
}

impl Flux2ImageProcessor {
    /// The family configuration.
    pub closed spec fn spec_config(&self) -> Flux2ImageProcessorConfig {
        self.config
    }

    /// The VAE processor.
    pub closed spec fn spec_vae_processor(&self) -> VaeImageProcessor {
        self.processor
    }

    /// Creates a processor from a validated Flux2 configuration.
    pub fn new(config: Flux2ImageProcessorConfig) -> (r: Result<Flux2ImageProcessor, ImageProcessorError>)
        ensures
            match spec_validate_vae_config(spec_flux2_vae_config(config)) {
                Err(e) => r == Err::<Flux2ImageProcessor, ImageProcessorError>(e),
                Ok(()) => r matches Ok(p) && p.spec_config() == config
                    && p.spec_vae_processor().spec_config() == spec_flux2_vae_config(config),
            },
    {
        let processor = match VaeImageProcessor::new(config.vae_image_processor_config()) {
            Ok(p) => p,
            Err(e) => return Err(e),
        };
        Ok(Flux2ImageProcessor { config, processor })
    }

    /// Returns the family configuration.
    pub fn config(&self) -> (r: &Flux2ImageProcessorConfig)
        ensures
            *r == self.spec_config(),
    {
        &self.config
    }

    /// Returns the VAE processor used for tensor conversion.
    pub fn vae_processor(&self) -> (r: &VaeImageProcessor)
        ensures
            *r == self.spec_vae_processor(),
    {
        &self.processor
    }

    /// Returns the tensor stage of the VAE processor.
    pub fn image_processor(&self) -> (r: &ImageProcessor)
        ensures
            *r == self.spec_vae_processor().spec_image_processor(),
    {
        self.processor.image_processor()
    }
}

/// Diffusers HunyuanVideo 1.5 image and video processor.
#[derive(Clone, Debug)]
pub struct HunyuanVideo15ImageProcessor {
    config: HunyuanVideo15ImageProcessorConfig,
    processor: VaeImageProcessor,
}

impl HunyuanVideo15ImageProcessor {
    /// The family configuration.
    pub closed spec fn spec_config(&self) -> HunyuanVideo15ImageProcessorConfig {
        self.config
    }

    /// The VAE processor.
    pub closed spec fn spec_vae_processor(&self) -> VaeImageProcessor {
        self.processor
    }

    /// Creates a processor from a validated HunyuanVideo 1.5 configuration.
    pub fn new(config: HunyuanVideo15ImageProcessorConfig) -> (r: Result<HunyuanVideo15ImageProcessor, ImageProcessorError>)
        ensures
            match spec_validate_vae_config(spec_hunyuan_vae_config(config)) {
                Err(e) => r == Err::<HunyuanVideo15ImageProcessor, ImageProcessorError>(e),
                Ok(()) => r matches Ok(p) && p.spec_config() == config
                    && p.spec_vae_processor().spec_config() == spec_hunyuan_vae_config(config),
            },
    {
        let processor = match VaeImageProcessor::new(config.vae_image_processor_config()) {
            Ok(p) => p,
            Err(e) => return Err(e),
        };
        Ok(HunyuanVideo15ImageProcessor { config, processor })
    }

    /// Returns the family configuration.
    pub fn config(&self) -> (r: &HunyuanVideo15ImageProcessorConfig)
        ensures
            *r == self.spec_config(),
    {
        &self.config
    }

    /// Returns the VAE processor used for tensor conversion.
    pub fn vae_processor(&self) -> (r: &VaeImageProcessor)
        ensures
            *r == self.spec_vae_processor(),
    {
        &self.processor
    }

    /// Returns the tensor stage of the VAE processor.
    pub fn image_processor(&self) -> (r: &ImageProcessor)
        ensures
            *r == self.spec_vae_processor().spec_image_processor(),
    {
        self.processor.image_processor()
    }
}

/// The JoyImage config check.
pub open spec fn spec_validate_joy_image_edit_config(c: JoyImageEditImageProcessorConfig) -> Result<(), ImageProcessorError> {
    if c.vae_scale_factor == 0 {
        Err(ImageProcessorError::Transform(TransformError::InvalidScaleFactor(c.vae_scale_factor)))
    } else if c.basesize != JOY_IMAGE_BASE_SIZE {
        Err(ImageProcessorError::UnsupportedProcessorOption { field: "basesize" })
    } else {
        Ok(())
    }
}

/// Checks the JoyImage scale factor and bucket-table base size.
pub fn validate_joy_image_edit_config(config: &JoyImageEditImageProcessorConfig) -> (r: Result<(), ImageProcessorError>)
    ensures
        r == spec_validate_joy_image_edit_config(*config),
{
    if config.vae_scale_factor == 0 {
        return Err(ImageProcessorError::Transform(TransformError::InvalidScaleFactor(config.vae_scale_factor)));
    }
    if config.basesize != JOY_IMAGE_BASE_SIZE {
        return Err(ImageProcessorError::UnsupportedProcessorOption { field: "basesize" });
    }
    Ok(())
}

/// Diffusers JoyImage edit image processor.
#[derive(Clone, Debug)]
pub struct JoyImageEditImageProcessor {
    config: JoyImageEditImageProcessorConfig,
    processor: ImageProcessor,
}

impl JoyImageEditImageProcessor {
    /// The family configuration.
    pub closed spec fn spec_config(&self) -> JoyImageEditImageProcessorConfig {
        self.config
    }

    /// The tensor stage.
    pub closed spec fn spec_image_processor(&self) -> ImageProcessor {
        self.processor
    }

    /// Creates a processor from a validated JoyImage configuration.
    pub fn new(config: JoyImageEditImageProcessorConfig) -> (r: Result<JoyImageEditImageProcessor, ImageProcessorError>)
        ensures
            match spec_validate_joy_image_edit_config(config) {
                Err(e) => r == Err::<JoyImageEditImageProcessor, ImageProcessorError>(e),
                Ok(()) => r matches Ok(p) && p.spec_config() == config
                    && joy_generic_config(config, p.spec_image_processor().spec_config()),
            },
    {
        match validate_joy_image_edit_config(&config) {
            Ok(()) => {},
            Err(e) => return Err(e),
        }
        let processor = ImageProcessor::from_config(config.image_processor_config());
        Ok(JoyImageEditImageProcessor { config, processor })
    }

    /// Returns the family configuration.
    pub fn config(&self) -> (r: &JoyImageEditImageProcessorConfig)
        ensures
            *r == self.spec_config(),
    {
        &self.config
    }

    /// Returns the tensor stage.
    pub fn image_processor(&self) -> (r: &ImageProcessor)
        ensures
            *r == self.spec_image_processor(),
    {
        &self.processor
    }
}

/// Diffusers Wan Animate image processor.
#[derive(Clone, Debug)]
pub struct WanAnimateImageProcessor {
    config: WanAnimateImageProcessorConfig,
    processor: ImageProcessor,
}

impl WanAnimateImageProcessor {
    /// The family configuration.
    pub closed spec fn spec_config(&self) -> WanAnimateImageProcessorConfig {
        self.config
    }

    /// The tensor stage.
    pub closed spec fn spec_image_processor(&self) -> ImageProcessor {
        self.processor
    }

    /// Creates a processor from a validated Wan configuration.
    pub fn new(config: WanAnimateImageProcessorConfig) -> (r: Result<WanAnimateImageProcessor, ImageProcessorError>)
        ensures
            match spec_validate_wan_animate_config(config) {
                Err(e) => r == Err::<WanAnimateImageProcessor, ImageProcessorError>(e),
                Ok(()) => r matches Ok(p) && p.spec_config() == config
                    && wan_generic_config(config, p.spec_image_processor().spec_config()),
            },
    {
        match validate_wan_animate_config(&config) {
            Ok(()) => {},
            Err(e) => return Err(e),
        }
        let processor = ImageProcessor::from_config(config.image_processor_config());
        Ok(WanAnimateImageProcessor { config, processor })
    }

    /// Returns the family configuration.
    pub fn config(&self) -> (r: &WanAnimateImageProcessorConfig)
        ensures
            *r == self.spec_config(),
    {
        &self.config
    }

    /// Returns the tensor stage.
    pub fn image_processor(&self) -> (r: &ImageProcessor)
        ensures
            *r == self.spec_image_processor(),
    {
        &self.processor
    }
}

/// Source coordinate of padded coordinate `coordinate` along an axis of
/// `extent` values: itself inside the axis, else its mirror image across the
/// last value when reflecting, else the last value.
pub open spec fn spec_ltx2_pad_coordinate(coordinate: int, extent: int, reflect: bool) -> int {
    if coordinate < extent {
        coordinate
    } else if reflect {
        extent - 2 - (coordinate - extent)
    } else {
        extent - 1
    }
}

/// Computes the source coordinate of a padded coordinate along one axis.
fn ltx2_pad_coordinate(coordinate: usize, extent: usize, reflect: bool) -> (r: usize)
    requires
        extent > 0,
        reflect && coordinate >= extent ==> coordinate - extent <= extent - 2,
    ensures
        r == spec_ltx2_pad_coordinate(coordinate as int, extent as int, reflect),
        r < extent,
{
    if coordinate < extent {
        coordinate
    } else if reflect {
        extent - 2 - (coordinate - extent)
    } else {
        extent - 1
    }
}

/// Whether LTX-2 pads by reflection: when both the bottom and the right
/// padding are shorter than the resized image along that axis.
pub open spec fn ltx2_reflects(resized: ImageSize, target: ImageSize) -> bool {
    target.height - resized.height < resized.height && target.width - resized.width < resized.width
}

/// Position in a resized plane of value `o` of its bottom/right padded copy.
pub open spec fn ltx2_pad_source(o: int, resized: ImageSize, target: ImageSize) -> int {
    let reflect = ltx2_reflects(resized, target);
    let y = o / (target.width as int);
    let x = o % (target.width as int);
    spec_ltx2_pad_coordinate(y, resized.height as int, reflect) * resized.width + spec_ltx2_pad_coordinate(
        x,
        resized.width as int,
        reflect,
    )
}

/// Pads one resized plane at the bottom and right up to `target` size, by
/// reflection when both paddings are shorter than the plane along their
/// axis and by repeating the last row and column otherwise.
pub fn ltx2_pad_plane<T: Copy>(resized_values: &[T], resized: ImageSize, target: ImageSize) -> (r: Vec<T>)
    requires
        resized.height > 0,
        resized.width > 0,
        resized.height <= target.height,
        resized.width <= target.width,
        resized_values@.len() == resized.height * resized.width,
        target.height * target.width <= usize::MAX,
    ensures
        r@.len() == target.height * target.width,
        forall|o: int| 0 <= o < r@.len() ==> #[trigger] r@[o] == resized_values@[ltx2_pad_source(o, resized, target)],
        forall|o: int| 0 <= o < r@.len() ==> 0 <= #[trigger] ltx2_pad_source(o, resized, target) < resized_values@.len(),
{
    let n = resized_values.len();
    let reflect = target.height - resized.height < resized.height && target.width - resized.width < resized.width;
    let total = target.height * target.width;
    let mut padded: Vec<T> = Vec::new();
    let mut o: usize = 0;
    while o < total
        invariant
            padded@.len() == o,
            o <= total,
            total == target.height * target.width,
            reflect == ltx2_reflects(resized, target),
            n == resized_values@.len(),
            n == resized.height * resized.width,
            resized.height > 0,
            resized.width > 0,
            resized.height <= target.height,
            resized.width <= target.width,
            forall|i: int| 0 <= i < o ==> #[trigger] padded@[i] == resized_values@[ltx2_pad_source(i, resized, target)],
            forall|i: int| 0 <= i < o ==> 0 <= #[trigger] ltx2_pad_source(i, resized, target) < n,
        decreases total - o,
    {
        proof {
            lemma_split(o as int, target.width as int);
            assert(o < (target.height as int) * (target.width as int));
            lemma_quotient_below(o as int, target.width as int, target.height as int);
        }
        let y = o / target.width;
        let x = o % target.width;
        let source_y = ltx2_pad_coordinate(y, resized.height, reflect);
        let source_x = ltx2_pad_coordinate(x, resized.width, reflect);
        proof {
            assert(0 <= source_y * resized.width <= source_y * resized.width + source_x < resized.height * resized.width)
                by (nonlinear_arith)
                requires
                    0 <= source_y < resized.height,
                    0 <= source_x < resized.width,
            ;
        }
        padded.push(resized_values[source_y * resized.width + source_x]);
        o = o + 1;
    }
    padded
}

/// Checks a BLIP configuration: its resize target must be non-zero.
pub fn validate_blip_config(config: &BlipImageProcessorConfig) -> (r: Result<(), ImageProcessorError>)
    ensures
        r == match spec_image_size_new(config.size.height, config.size.width) {
            Err(e) => Err::<(), ImageProcessorError>(ImageProcessorError::Transform(e)),
            Ok(_) => Ok(()),
        },
{
    match ImageSize::new(config.size.height, config.size.width) {
        Ok(_) => Ok(()),
        Err(e) => Err(ImageProcessorError::Transform(e)),
    }
}

/// The BLIP target of one call: the per-call height and width when given,
/// else the configured size; both must be non-zero.
pub fn blip_target_size(config: &BlipImageProcessorConfig, options: ImageProcessorOptions) -> (r: Result<ImageSize, ImageProcessorError>)
    ensures
        ({
            let height = match options.height { Some(h) => h, None => config.size.height };
            let width = match options.width { Some(w) => w, None => config.size.width };
            r == match spec_image_size_new(height, width) {
                Err(e) => Err::<ImageSize, ImageProcessorError>(ImageProcessorError::Transform(e)),
                Ok(s) => Ok(s),
            }
        }),
{
    let height = match options.height {
        Some(h) => h,
        None => config.size.height,
    };
    let width = match options.width {
        Some(w) => w,
        None => config.size.width,
    };
    match ImageSize::new(height, width) {
        Ok(s) => Ok(s),
        Err(e) => Err(ImageProcessorError::Transform(e)),
    }
}

/// The per-call options that resize to `target` directly.
pub fn blip_preprocess_options(target: ImageSize) -> (r: ImageProcessorOptions)
    ensures
        r == (ImageProcessorOptions {
            height: Some(target.height),
            width: Some(target.width),
            resize_mode: Some(ResizeMode::Default),
        }),
{
    ImageProcessorOptions { height: Some(target.height), width: Some(target.width), resize_mode: Some(ResizeMode::Default) }
}

/// Checks a Flux2 configuration through its VAE configuration.
pub fn validate_flux2_config(config: &Flux2ImageProcessorConfig) -> (r: Result<(), ImageProcessorError>)
    ensures
        r == spec_validate_vae_config(spec_flux2_vae_config(*config)),
{
    validate_vae_config(&config.vae_image_processor_config())
}

/// Checks a HunyuanVideo 1.5 configuration through its VAE configuration.
pub fn validate_hunyuan_video_15_config(config: &HunyuanVideo15ImageProcessorConfig) -> (r: Result<(), ImageProcessorError>)
    ensures
        r == spec_validate_vae_config(spec_hunyuan_vae_config(*config)),
{
    validate_vae_config(&config.vae_image_processor_config())
}

/// Checks an LTX-2 HDR video configuration through its VAE configuration.
pub fn validate_ltx2_video_hdr_config(config: &Ltx2VideoHdrProcessorConfig) -> (r: Result<(), ImageProcessorError>)
    ensures
        r == spec_validate_vae_config(spec_ltx2_vae_config(*config)),
{
    validate_vae_config(&config.vae_image_processor_config())
}

/// The pixel count of `size`, which must fit `usize`.
pub fn ltx2_checked_area(size: ImageSize) -> (r: Result<usize, ImageProcessorError>)
    ensures
        size.height * size.width <= usize::MAX ==> r == Ok::<usize, ImageProcessorError>((size.height * size.width) as usize),
        size.height * size.width > usize::MAX ==> r == Err::<usize, ImageProcessorError>(
            ImageProcessorError::Transform(TransformError::ImageSizeOverflow),
        ),
{
    match size.height.checked_mul(size.width) {
        Some(area) => Ok(area),
        None => Err(ImageProcessorError::Transform(TransformError::ImageSizeOverflow)),
    }
}

/// The Wan Animate target of one call: the image size, with the per-call
/// height and width in its place when given, rounded down to the
/// configured multiples.
pub fn wan_animate_target_size(config: &WanAnimateImageProcessorConfig, image: &ImageFrame, options: ImageProcessorOptions) -> (r: Result<ImageSize, ImageProcessorError>)
    ensures
        ({
            let height = match options.height { Some(h) => h, None => image.spec_height() };
            let width = match options.width { Some(w) => w, None => image.spec_width() };
            r == match spec_image_size_new(height, width) {
                Err(e) => Err::<ImageSize, ImageProcessorError>(ImageProcessorError::Transform(e)),
                Ok(s) => spec_wan_animate_target_size(*config, s),
            }
        }),
{
    let height = match options.height {
        Some(h) => h,
        None => image.height(),
    };
    let width = match options.width {
        Some(w) => w,
        None => image.width(),
    };
    let source = match ImageSize::new(height, width) {
        Ok(s) => s,
        Err(e) => return Err(ImageProcessorError::Transform(e)),
    };
    config.target_size_for_size(source)
}


/// The (width, height) patch counts HunyuanVideo 1.5 visits while enumerating buckets for
/// `num_patches` patches, from `(w, h)` on: each pair is visited, then the height grows
/// while `(h + 1) * w` still fits in `num_patches`, otherwise the width shrinks, until the
/// width reaches zero.
pub open spec fn hunyuan_bucket_walk(num_patches: int, w: int, h: int) -> Seq<(int, int)>
    decreases w, num_patches - h,
    when w >= 0 && h >= 1
{
    if w <= 0 {
        Seq::empty()
    } else if (h + 1) * w <= num_patches {
        proof {
            assert(h + 1 <= (h + 1) * w) by (nonlinear_arith)
                requires w >= 1, h >= 1;
        }
        seq![(w, h)] + hunyuan_bucket_walk(num_patches, w, h + 1)
    } else {
        seq![(w, h)] + hunyuan_bucket_walk(num_patches, w - 1, h)
    }
}

/// Returns the (width, height) patch counts HunyuanVideo 1.5 considers as buckets for
/// `num_patches` patches, in the order they are visited.
pub fn hunyuan_video_15_bucket_walk(num_patches: usize) -> (r: Vec<(usize, usize)>)
    ensures
        r@.len() == hunyuan_bucket_walk(num_patches as int, num_patches as int, 1).len(),
        forall|i: int| 0 <= i < r@.len() ==> ((#[trigger] r@[i]).0 as int, r@[i].1 as int)
            == hunyuan_bucket_walk(num_patches as int, num_patches as int, 1)[i],
{
    let ghost whole = hunyuan_bucket_walk(num_patches as int, num_patches as int, 1);
    let mut out: Vec<(usize, usize)> = Vec::new();
    let mut w: usize = num_patches;
    let mut h: usize = 1;
    while w > 0
        invariant
            h >= 1,
            w <= num_patches,
            w > 0 ==> h <= num_patches,
            whole == hunyuan_bucket_walk(num_patches as int, num_patches as int, 1),
            out@.len() + hunyuan_bucket_walk(num_patches as int, w as int, h as int).len() == whole.len(),
            forall|i: int| 0 <= i < out@.len() ==> ((#[trigger] out@[i]).0 as int, out@[i].1 as int) == whole[i],
            forall|i: int| 0 <= i < hunyuan_bucket_walk(num_patches as int, w as int, h as int).len() ==>
                #[trigger] hunyuan_bucket_walk(num_patches as int, w as int, h as int)[i] == whole[out@.len() + i],
        decreases w, num_patches - h,
    {
        let ghost rest = hunyuan_bucket_walk(num_patches as int, w as int, h as int);
        out.push((w, h));
        let grow = match h.checked_add(1) {
            Some(next) => match next.checked_mul(w) {
                Some(area) => area <= num_patches,
                None => false,
            },
            None => false,
        };
        if grow {
            assert(h + 1 <= (h + 1) * w) by (nonlinear_arith)
                requires w >= 1, h >= 1;
            let ghost next = hunyuan_bucket_walk(num_patches as int, w as int, h + 1);
            assert(rest == seq![(w as int, h as int)] + next);
            assert forall|i: int| 0 <= i < next.len() implies #[trigger] next[i] == whole[out@.len() + i] by {
                assert(next[i] == rest[i + 1]);
            }
            h = h + 1;
        } else {
            assert((h + 1) * w > num_patches) by (nonlinear_arith)
                requires
                    h + 1 > usize::MAX || (h + 1) * w > usize::MAX || (h + 1) * w > num_patches,
                    num_patches <= usize::MAX, w >= 1;
            let ghost next = hunyuan_bucket_walk(num_patches as int, w - 1, h as int);
            assert(rest == seq![(w as int, h as int)] + next);
            assert forall|i: int| 0 <= i < next.len() implies #[trigger] next[i] == whole[out@.len() + i] by {
                assert(next[i] == rest[i + 1]);
            }
            w = w - 1;
        }
        assert forall|i: int| 0 <= i < out@.len() implies ((#[trigger] out@[i]).0 as int, out@[i].1 as int) == whole[i] by {
            if i == out@.len() - 1 {
                assert(rest[0] == whole[out@.len() - 1]);
            }
        }
    }
    out
}

/// The bucket size HunyuanVideo 1.5 records for a (width, height) patch pair: the height
/// is the width patch count times the patch size and the width the height patch count
/// times the patch size, the order in which HunyuanVideo 1.5 lists its buckets.
pub open spec fn spec_hunyuan_bucket_size(width_patches: usize, height_patches: usize, patch_size: usize) -> Result<ImageSize, ImageProcessorError> {
    if width_patches * patch_size > usize::MAX || height_patches * patch_size > usize::MAX {
        Err(ImageProcessorError::Transform(TransformError::ImageSizeOverflow))
    } else {
        match spec_image_size_new((width_patches * patch_size) as usize, (height_patches * patch_size) as usize) {
            Ok(size) => Ok(size),
            Err(e) => Err(ImageProcessorError::Transform(e)),
        }
    }
}

/// Returns the bucket size of a (width, height) patch pair.
pub fn hunyuan_video_15_bucket_size(width_patches: usize, height_patches: usize, patch_size: usize) -> (r: Result<ImageSize, ImageProcessorError>)
    ensures
        r == spec_hunyuan_bucket_size(width_patches, height_patches, patch_size),
{
    let height = match width_patches.checked_mul(patch_size) {
        Some(v) => v,
        None => return Err(ImageProcessorError::Transform(TransformError::ImageSizeOverflow)),
    };
    let width = match height_patches.checked_mul(patch_size) {
        Some(v) => v,
        None => return Err(ImageProcessorError::Transform(TransformError::ImageSizeOverflow)),
    };
    match ImageSize::new(height, width) {
        Ok(size) => Ok(size),
        Err(e) => Err(ImageProcessorError::Transform(e)),
    }
}


/// The sizes of an LTX-2 reference resize-and-pad stage.
#[derive(Clone, Copy, Debug, PartialEq, Eq)]
pub struct Ltx2PadPlan {
    /// Values per source plane.
    pub source_pixels: usize,
    /// Values per padded plane.
    pub target_pixels: usize,
    /// Value count of the padded tensor.
    pub output_len: usize,
    /// Rows added at the bottom.
    pub pad_bottom: usize,
    /// Columns added on the right.
    pub pad_right: usize,
    /// Whether the padding reflects (rather than replicates) the resized plane.
    pub reflect: bool,
}

/// The LTX-2 resize-and-pad check: the resized size must fit inside the target, and the
/// plane areas and `frames * channels * target area` must fit `usize`.
pub open spec fn spec_ltx2_pad_plan(frames: usize, channels: usize, source: ImageSize, resized: ImageSize, target: ImageSize) -> Result<Ltx2PadPlan, ImageProcessorError> {
    if resized.height > target.height || resized.width > target.width {
        Err(ImageProcessorError::InvalidPaddingTarget { target_size: target, image_size: resized })
    } else if source.height * source.width > usize::MAX || target.height * target.width > usize::MAX
        || frames * channels > usize::MAX || frames * channels * (target.height * target.width) > usize::MAX {
        Err(ImageProcessorError::Transform(TransformError::ImageSizeOverflow))
    } else {
        Ok(Ltx2PadPlan {
            source_pixels: (source.height * source.width) as usize,
            target_pixels: (target.height * target.width) as usize,
            output_len: (frames * channels * (target.height * target.width)) as usize,
            pad_bottom: (target.height - resized.height) as usize,
            pad_right: (target.width - resized.width) as usize,
            reflect: ltx2_reflects(resized, target),
        })
    }
}

/// Checks the sizes of an LTX-2 reference resize-and-pad stage for `frames * channels`
/// planes of size `source`, resized to `resized` and padded to `target`.
pub fn ltx2_pad_plan(frames: usize, channels: usize, source: ImageSize, resized: ImageSize, target: ImageSize) -> (r: Result<Ltx2PadPlan, ImageProcessorError>)
    ensures
        r == spec_ltx2_pad_plan(frames, channels, source, resized, target),
{
    if resized.height > target.height || resized.width > target.width {
        return Err(ImageProcessorError::InvalidPaddingTarget { target_size: target, image_size: resized });
    }
    let source_pixels = match ltx2_checked_area(source) {
        Ok(v) => v,
        Err(e) => return Err(e),
    };
    let target_pixels = match ltx2_checked_area(target) {
        Ok(v) => v,
        Err(e) => return Err(e),
    };
    let plane_count = match frames.checked_mul(channels) {
        Some(v) => v,
        None => return Err(ImageProcessorError::Transform(TransformError::ImageSizeOverflow)),
    };
    let output_len = match plane_count.checked_mul(target_pixels) {
        Some(v) => v,
        None => return Err(ImageProcessorError::Transform(TransformError::ImageSizeOverflow)),
    };
    let pad_bottom = target.height - resized.height;
    let pad_right = target.width - resized.width;
    let reflect = pad_bottom < resized.height && pad_right < resized.width;
    Ok(Ltx2PadPlan { source_pixels, target_pixels, output_len, pad_bottom, pad_right, reflect })
}


/// The size JoyImage selects a bucket for: the requested height and width when both are
/// given, otherwise the image's own size; a zero dimension is rejected.
pub open spec fn spec_joy_image_source_size(options: ImageProcessorOptions, image: ImageSize) -> Result<ImageSize, ImageProcessorError> {
    let (height, width) = match (options.height, options.width) {
        (Some(h), Some(w)) => (h, w),
        _ => (image.height, image.width),
    };
    match spec_image_size_new(height, width) {
        Ok(s) => Ok(s),
        Err(e) => Err(ImageProcessorError::Transform(e)),
    }
}

/// Returns the size JoyImage selects a bucket for.
pub fn joy_image_source_size(options: ImageProcessorOptions, image: ImageSize) -> (r: Result<ImageSize, ImageProcessorError>)
    ensures
        r == spec_joy_image_source_size(options, image),
{
    let (height, width) = match (options.height, options.width) {
        (Some(h), Some(w)) => (h, w),
        _ => (image.height, image.width),
    };
    match ImageSize::new(height, width) {
        Ok(s) => Ok(s),
        Err(e) => Err(ImageProcessorError::Transform(e)),
    }
}

/// The padded `[planes, target area]` values of `count` resized planes stored one after
/// another: value `k` comes from plane `k / area` at the position `ltx2_pad_source` maps
/// its offset to.
pub open spec fn ltx2_padded_planes(resized_planes: Seq<u32>, count: int, resized: ImageSize, target: ImageSize) -> Seq<u32> {
    let area = target.height * target.width;
    let resized_area = resized.height * resized.width;
    Seq::new((count * area) as nat, |k: int|
        resized_planes[(k / area) * resized_area + ltx2_pad_source(k % area, resized, target)])
}

impl Ltx2VideoHdrProcessor {
    /// Pads resized LTX2 reference planes to `target` and lays them out as the reference
    /// clip: `resized_planes` holds `frames * channels` planes of the `resized` size (the
    /// frames' planar values after the floating-point fit inside `target`), each padded at
    /// the bottom and right by reflection when both paddings are smaller than the resized
    /// plane, by edge replication otherwise. The clip is `NCHW`, or `NHWC` when the
    /// configured layout is channel-last. A clip without frames is an empty batch.
    pub fn pad_reference_frames(
        &self,
        frames: usize,
        channels: usize,
        source: ImageSize,
        resized: ImageSize,
        target: ImageSize,
        resized_planes: &[u32],
    ) -> (r: Result<TensorValues, ImageProcessorError>)
        requires
            resized.height > 0,
            resized.width > 0,
            channels > 0,
            resized_planes@.len() == frames * channels * (resized.height * resized.width),
        ensures
            frames == 0 ==> r == Err::<TensorValues, ImageProcessorError>(ImageProcessorError::EmptyBatch),
            frames > 0 ==> match spec_ltx2_pad_plan(frames, channels, source, resized, target) {
                Err(e) => r == Err::<TensorValues, ImageProcessorError>(e),
                Ok(plan) => r matches Ok(t) && {
                    let area = target.height * target.width;
                    let nchw = ltx2_padded_planes(resized_planes@, frames * channels, resized, target);
                    match self.spec_config().output_layout {
                        VideoLayout::FramesChannelsHeightWidth => {
                            &&& t.layout == Layout::NCHW
                            &&& t.shape@ == seq![frames, channels, target.height, target.width]
                            &&& t.values@ == nchw
                        },
                        VideoLayout::FramesHeightWidthChannels => {
                            &&& t.layout == Layout::NHWC
                            &&& t.shape@ == seq![frames, target.height, target.width, channels]
                            &&& t.values@.len() == nchw.len()
                            &&& forall|o: int| 0 <= o < t.values@.len() ==> #[trigger] t.values@[o]
                                == nchw[channel_last_source(o, channels as int, area)]
                        },
                    }
                },
            },
    {
        if frames == 0 {
            return Err(ImageProcessorError::EmptyBatch);
        }
        let plan = match ltx2_pad_plan(frames, channels, source, resized, target) {
            Ok(p) => p,
            Err(e) => return Err(e),
        };
        let area = plan.target_pixels;
        assert(resized.height * resized.width <= target.height * target.width && resized.height * resized.width > 0) by (nonlinear_arith)
            requires resized.height <= target.height, resized.width <= target.width, resized.height > 0, resized.width > 0;
        let resized_area = resized.height * resized.width;
        let count = frames * channels;
        let ghost nchw = ltx2_padded_planes(resized_planes@, count as int, resized, target);
        let planes_len = resized_planes.len();
        assert(planes_len == resized_planes@.len());
        assert(resized_area <= resized_planes@.len() || count == 0) by (nonlinear_arith)
            requires resized_planes@.len() == count * resized_area, count >= 0, resized_area >= 0;
        let mut values: Vec<u32> = Vec::new();
        let mut q: usize = 0;
        while q < count
            invariant
                area == target.height * target.width,
                resized_area == resized.height * resized.width,
                resized_area > 0,
                area >= resized_area,
                resized.height <= target.height,
                resized.width <= target.width,
                resized.height > 0,
                resized.width > 0,
                count * area <= usize::MAX,
                resized_planes@.len() == count * resized_area,
                resized_planes@.len() <= usize::MAX,
                nchw == ltx2_padded_planes(resized_planes@, count as int, resized, target),
                q <= count,
                values@.len() == q * area,
                forall|k: int| 0 <= k < values@.len() ==> #[trigger] values@[k] == nchw[k],
            decreases count - q,
        {
            assert((q + 1) * resized_area <= count * resized_area && q * resized_area + resized_area == (q + 1) * resized_area
                && (q + 1) * area <= count * area && q * area + area == (q + 1) * area) by (nonlinear_arith)
                requires q < count, resized_area >= 0, area >= 0;
            let plane = copy_plane(resized_planes, q * resized_area, resized_area);
            let padded = ltx2_pad_plane(plane.as_slice(), resized, target);
            let ghost before = values@;
            let mut k: usize = 0;
            while k < padded.len()
                invariant
                    padded@.len() == area,
                    area == target.height * target.width,
                    area > 0,
                    resized_area == resized.height * resized.width,
                    q < count,
                    (q + 1) * area <= count * area,
                    q * area + area == (q + 1) * area,
                    count * area <= usize::MAX,
                    nchw == ltx2_padded_planes(resized_planes@, count as int, resized, target),
                    plane@ == resized_planes@.subrange(q * resized_area, q * resized_area + resized_area),
                    resized_planes@.len() == count * resized_area,
                    (q + 1) * resized_area <= count * resized_area,
                    q * resized_area + resized_area == (q + 1) * resized_area,
                    forall|o: int| 0 <= o < padded@.len() ==> #[trigger] padded@[o] == plane@[ltx2_pad_source(o, resized, target)],
                    forall|o: int| 0 <= o < padded@.len() ==> 0 <= #[trigger] ltx2_pad_source(o, resized, target) < plane@.len(),
                    plane@.len() == resized_area,
                    k <= padded@.len(),
                    values@.len() == q * area + k,
                    forall|j: int| 0 <= j < values@.len() ==> #[trigger] values@[j] == nchw[j],
                decreases padded@.len() - k,
            {
                let index = q * area + k;
                proof {
                    vstd::arithmetic::div_mod::lemma_fundamental_div_mod_converse_div(index as int, area as int, q as int, k as int);
                    vstd::arithmetic::div_mod::lemma_fundamental_div_mod_converse_mod(index as int, area as int, q as int, k as int);
                    assert(index < count * area);
                    assert(nchw.len() == count * area);
                    assert(nchw[index as int] == resized_planes@[q * resized_area + ltx2_pad_source(k as int, resized, target)]);
                    assert(padded@[k as int] == plane@[ltx2_pad_source(k as int, resized, target)]);
                    assert(0 <= ltx2_pad_source(k as int, resized, target) < resized_area);
                    assert(plane@[ltx2_pad_source(k as int, resized, target)]
                        == resized_planes@[q * resized_area + ltx2_pad_source(k as int, resized, target)]);
                }
                values.push(padded[k]);
                k = k + 1;
            }
            q = q + 1;
        }
        assert(values@ =~= nchw);
        match self.config.output_layout {
            VideoLayout::FramesChannelsHeightWidth => {
                let shape = vec![frames, channels, target.height, target.width];
                assert(shape@ =~= seq![frames, channels, target.height, target.width]);
                Ok(TensorValues { values, shape, layout: Layout::NCHW })
            },
            VideoLayout::FramesHeightWidthChannels => {
                assert(count * area == frames * channels * area) by (nonlinear_arith) requires count == frames * channels;
                let out = to_channel_last(values.as_slice(), frames, channels, area);
                let shape = vec![frames, target.height, target.width, channels];
                assert(shape@ =~= seq![frames, target.height, target.width, channels]);
                Ok(TensorValues { values: out, shape, layout: Layout::NHWC })
            },
        }
    }
}

/// Copies `len` values of `values` starting at `start`.
fn copy_plane(values: &[u32], start: usize, len: usize) -> (r: Vec<u32>)
    requires
        start + len <= values@.len(),
    ensures
        r@ == values@.subrange(start as int, start + len),
{
    let mut out: Vec<u32> = Vec::new();
    let mut k: usize = 0;
    let total = values.len();
    while k < len
        invariant
            k <= len,
            total == values@.len(),
            start + len <= values@.len(),
            out@ == values@.subrange(start as int, start + k),
        decreases len - k,
    {
        out.push(values[start + k]);
        k = k + 1;
        assert(out@ =~= values@.subrange(start as int, start + k));
    }
    out
}
} // verus!
