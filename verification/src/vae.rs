//! Diffusers VAE and LDM3D processing: configuration, size planning, depth maps and
//! postprocess outputs.

use vstd::prelude::*;
use vstd::arithmetic::div_mod::lemma_fundamental_div_mod_converse_div;

use image::imageops::FilterType;
use image::{ImageBuffer, Luma};

use crate::errors::{ImageProcessorError, TransformError};
use crate::generic::{
    config_is, default_rescale_factor, same_config, diffusion_vae_image_mean, diffusion_vae_image_std,
    spec_default_rescale_factor, spec_diffusion_vae_image_mean, spec_diffusion_vae_image_std,
    ImageProcessor, ImageProcessorConfig, ImageProcessorOptions,
};
use crate::geometry::{spec_image_size_new, ImageSize};
use crate::layout::{
    batched_layout_for_image_layout, spec_batched_layout_for_image_layout,
    channel_last_source, spec_video_layout_for_image_layout, to_channel_last, video_layout_for_image_layout, ImageLayout,
    Layout, VideoLayout,
};
use crate::media::{ImageCropBox, ImageFrame};
use crate::recipe::{normalize_stage_is, ProcessorRecipe, RecipeResize, RecipeStage};
use crate::settings::{
    resize_decision_for_parts, BatchExecution, ImageDecodeBackend, PixelFormat, ResizeDecision,
    ResizeFilter, ResizeMode, ResizeParity,
};

verus! {

/// Output kind of VAE postprocessing.
#[derive(Clone, Copy, Debug, PartialEq, Eq, Structural)]
pub enum VaeOutputType {
    /// The input tensor, unchanged.
    Latent,
    /// A tensor in the input layout after optional denormalization.
    Tensor,
    /// A channel-last tensor after optional denormalization.
    Array,
    /// Owned image frames after optional denormalization.
    Frames,
}

/// VAE postprocess output: a tensor of type `T`, or decoded frames.
#[derive(Clone, Debug, PartialEq)]
pub enum VaePostprocessOutput<T> {
    /// Tensor output of the latent, tensor and array modes.
    Tensor(T),
    /// Frame output; batched videos are flattened batch-major, frame-major.
    Frames(Vec<ImageFrame>),
}

impl<T> VaePostprocessOutput<T> {
    /// Returns the tensor when this output holds one.
    pub fn as_tensor(&self) -> (r: Option<&T>)
        ensures
            match self {
                VaePostprocessOutput::Tensor(t) => r == Some(t),
                VaePostprocessOutput::Frames(_) => r is None,
            },
    {
        match self {
            VaePostprocessOutput::Tensor(tensor) => Some(tensor),
            VaePostprocessOutput::Frames(_) => None,
        }
    }

    /// Returns the frames when this output holds them.
    pub fn as_frames(&self) -> (r: Option<&[ImageFrame]>)
        ensures
            match self {
                VaePostprocessOutput::Tensor(_) => r is None,
                VaePostprocessOutput::Frames(f) => r matches Some(s) && s@ == f@,
            },
    {
        match self {
            VaePostprocessOutput::Tensor(_) => None,
            VaePostprocessOutput::Frames(frames) => Some(frames.as_slice()),
        }
    }

    /// Consumes this output and returns its tensor, when present.
    pub fn into_tensor(self) -> (r: Option<T>)
        ensures
            match self {
                VaePostprocessOutput::Tensor(t) => r == Some(t),
                VaePostprocessOutput::Frames(_) => r is None,
            },
    {
        match self {
            VaePostprocessOutput::Tensor(tensor) => Some(tensor),
            VaePostprocessOutput::Frames(_) => None,
        }
    }

    /// Consumes this output and returns its frames, when present.
    pub fn into_frames(self) -> (r: Option<Vec<ImageFrame>>)
        ensures
            match self {
                VaePostprocessOutput::Tensor(_) => r is None,
                VaePostprocessOutput::Frames(f) => r == Some(f),
            },
    {
        match self {
            VaePostprocessOutput::Tensor(_) => None,
            VaePostprocessOutput::Frames(frames) => Some(frames),
        }
    }
}

/// Original-canvas data needed for crop-aware inpaint postprocessing.
#[derive(Clone, Debug, PartialEq)]
pub struct InpaintOverlayContext {
    /// Crop box used before inpaint generation.
    pub crop_box: ImageCropBox,
    /// Original image frame.
    pub original_image: ImageFrame,
    /// Original mask frame.
    pub original_mask: ImageFrame,
}

/// Inpaint preprocessing output: image and mask tensors of type `T` and the optional
/// overlay context.
#[derive(Clone, Debug, PartialEq)]
pub struct InpaintPreprocessOutput<T> {
    pixel_values: T,
    mask: T,
    overlay_context: Option<InpaintOverlayContext>,
}

impl<T> InpaintPreprocessOutput<T> {
    /// The image tensor.
    pub closed spec fn spec_pixel_values(&self) -> T {
        self.pixel_values
    }

    /// The mask tensor.
    pub closed spec fn spec_mask(&self) -> T {
        self.mask
    }

    /// The overlay context.
    pub closed spec fn spec_overlay_context(&self) -> Option<InpaintOverlayContext> {
        self.overlay_context
    }

    /// Assembles an inpaint preprocessing output.
    pub fn new(pixel_values: T, mask: T, overlay_context: Option<InpaintOverlayContext>) -> (r: Self)
        ensures
            r.spec_pixel_values() == pixel_values,
            r.spec_mask() == mask,
            r.spec_overlay_context() == overlay_context,
    {
        InpaintPreprocessOutput { pixel_values, mask, overlay_context }
    }

    /// Returns the image tensor.
    pub fn pixel_values(&self) -> (r: &T)
        ensures
            *r == self.spec_pixel_values(),
    {
        &self.pixel_values
    }

    /// Returns the binarized mask tensor.
    pub fn mask(&self) -> (r: &T)
        ensures
            *r == self.spec_mask(),
    {
        &self.mask
    }

    /// Returns the optional crop-aware overlay context.
    pub fn overlay_context(&self) -> (r: Option<&InpaintOverlayContext>)
        ensures
            match self.spec_overlay_context() {
                Some(c) => r == Some(&c),
                None => r is None,
            },
    {
        match &self.overlay_context {
            Some(c) => Some(c),
            None => None,
        }
    }

    /// Consumes this output into image tensor, mask tensor and overlay context.
    pub fn into_parts(self) -> (r: (T, T, Option<InpaintOverlayContext>))
        ensures
            r == (self.spec_pixel_values(), self.spec_mask(), self.spec_overlay_context()),
    {
        (self.pixel_values, self.mask, self.overlay_context)
    }
}

/// A 16-bit single-channel depth map with row-major values.
#[derive(Debug, PartialEq, Eq)]
pub struct DepthMapU16 {
    width: usize,
    height: usize,
    data: Vec<u16>,
}

/// The depth-map construction check: non-zero dimensions and exactly
/// `width * height` values.
pub open spec fn spec_depth_map_check(width: usize, height: usize, len: nat) -> Result<(), ImageProcessorError> {
    if height == 0 || width == 0 {
        Err(ImageProcessorError::Transform(TransformError::InvalidSize { height, width }))
    } else if height * width > usize::MAX {
        Err(ImageProcessorError::Transform(TransformError::ImageSizeOverflow))
    } else if len != height * width {
        Err(ImageProcessorError::Transform(
            TransformError::InvalidBufferLength { expected: (height * width) as usize, actual: len as usize },
        ))
    } else {
        Ok(())
    }
}

impl DepthMapU16 {
    /// Width in pixels.
    pub closed spec fn spec_width(&self) -> usize {
        self.width
    }

    /// Height in pixels.
    pub closed spec fn spec_height(&self) -> usize {
        self.height
    }

    /// Row-major depth values.
    pub closed spec fn spec_data(&self) -> Seq<u16> {
        self.data@
    }

    /// Every depth map has non-zero dimensions and `width * height` values.
    #[verifier::type_invariant]
    closed spec fn inv(&self) -> bool {
        &&& self.width > 0
        &&& self.height > 0
        &&& self.data@.len() == self.width * self.height
    }

    /// Creates a depth map from row-major values.
    pub fn new(width: usize, height: usize, data: Vec<u16>) -> (r: Result<DepthMapU16, ImageProcessorError>)
        ensures
            match spec_depth_map_check(width, height, data@.len()) {
                Err(e) => r == Err::<DepthMapU16, ImageProcessorError>(e),
                Ok(()) => r matches Ok(m) && m.spec_width() == width && m.spec_height() == height
                    && m.spec_data() == data@,
            },
    {
        let size = match ImageSize::new(height, width) {
            Ok(s) => s,
            Err(e) => return Err(ImageProcessorError::Transform(e)),
        };
        let expected = match size.height.checked_mul(size.width) {
            Some(e) => e,
            None => return Err(ImageProcessorError::Transform(TransformError::ImageSizeOverflow)),
        };
        if data.len() != expected {
            return Err(ImageProcessorError::Transform(
                TransformError::InvalidBufferLength { expected, actual: data.len() },
            ));
        }
        assert(width * height == height * width) by (nonlinear_arith);
        assert(width > 0 && height > 0);
        assert(data@.len() == width * height);
        Ok(DepthMapU16 { width, height, data })
    }

    /// Height and width.
    pub open spec fn spec_size(&self) -> ImageSize {
        ImageSize { height: self.spec_height(), width: self.spec_width() }
    }

    /// Returns a copy of this map.
    pub fn duplicate(&self) -> (r: DepthMapU16)
        ensures
            r.spec_width() == self.spec_width(),
            r.spec_height() == self.spec_height(),
            r.spec_data() == self.spec_data(),
    {
        proof {
            use_type_invariant(self);
        }
        let data = self.data.clone();
        assert(data@ =~= self.data@);
        DepthMapU16 { width: self.width, height: self.height, data }
    }

    /// Returns the width in pixels.
    pub fn width(&self) -> (r: usize)
        ensures
            r == self.spec_width(),
            r > 0,
    {
        proof {
            use_type_invariant(self);
        }
        self.width
    }

    /// Returns the height in pixels.
    pub fn height(&self) -> (r: usize)
        ensures
            r == self.spec_height(),
            r > 0,
    {
        proof {
            use_type_invariant(self);
        }
        self.height
    }

    /// Returns the height-width size.
    pub fn size(&self) -> (r: ImageSize)
        ensures
            r == (ImageSize { height: self.spec_height(), width: self.spec_width() }),
    {
        ImageSize { height: self.height, width: self.width }
    }

    /// Returns the row-major depth values.
    pub fn data(&self) -> (r: &[u16])
        ensures
            r@ == self.spec_data(),
            r@.len() == self.spec_width() * self.spec_height(),
    {
        proof {
            use_type_invariant(self);
        }
        self.data.as_slice()
    }

    /// Consumes this map into width, height and row-major values.
    pub fn into_parts(self) -> (r: (usize, usize, Vec<u16>))
        ensures
            r.0 == self.spec_width(),
            r.1 == self.spec_height(),
            r.2@ == self.spec_data(),
    {
        (self.width, self.height, self.data)
    }
}

/// LDM3D preprocessing output: RGB and depth tensors of type `T`.
#[derive(Clone, Debug, PartialEq)]
pub struct Ldm3dPreprocessOutput<T> {
    rgb: T,
    depth: T,
}

impl<T> Ldm3dPreprocessOutput<T> {
    /// The RGB tensor.
    pub closed spec fn spec_rgb(&self) -> T {
        self.rgb
    }

    /// The depth tensor.
    pub closed spec fn spec_depth(&self) -> T {
        self.depth
    }

    /// Assembles an LDM3D preprocessing output.
    pub fn new(rgb: T, depth: T) -> (r: Self)
        ensures
            r.spec_rgb() == rgb,
            r.spec_depth() == depth,
    {
        Ldm3dPreprocessOutput { rgb, depth }
    }

    /// Returns the RGB tensor.
    pub fn rgb(&self) -> (r: &T)
        ensures
            *r == self.spec_rgb(),
    {
        &self.rgb
    }

    /// Returns the depth tensor.
    pub fn depth(&self) -> (r: &T)
        ensures
            *r == self.spec_depth(),
    {
        &self.depth
    }

    /// Consumes this output into RGB and depth tensors.
    pub fn into_parts(self) -> (r: (T, T))
        ensures
            r == (self.spec_rgb(), self.spec_depth()),
    {
        (self.rgb, self.depth)
    }
}

/// LDM3D postprocessing output: RGB frames and 16-bit depth maps.
#[derive(Clone, Debug, PartialEq)]
pub struct Ldm3dPostprocessOutput {
    rgb: Vec<ImageFrame>,
    depth: Vec<DepthMapU16>,
}

impl Ldm3dPostprocessOutput {
    /// The RGB frames.
    pub closed spec fn spec_rgb(&self) -> Seq<ImageFrame> {
        self.rgb@
    }

    /// The depth maps.
    pub closed spec fn spec_depth(&self) -> Seq<DepthMapU16> {
        self.depth@
    }

    /// Assembles an LDM3D postprocessing output.
    pub fn new(rgb: Vec<ImageFrame>, depth: Vec<DepthMapU16>) -> (r: Self)
        ensures
            r.spec_rgb() == rgb@,
            r.spec_depth() == depth@,
    {
        Ldm3dPostprocessOutput { rgb, depth }
    }

    /// Returns the RGB frames.
    pub fn rgb(&self) -> (r: &[ImageFrame])
        ensures
            r@ == self.spec_rgb(),
    {
        self.rgb.as_slice()
    }

    /// Returns the depth maps.
    pub fn depth(&self) -> (r: &[DepthMapU16])
        ensures
            r@ == self.spec_depth(),
    {
        self.depth.as_slice()
    }

    /// Consumes this output into RGB frames and depth maps.
    pub fn into_parts(self) -> (r: (Vec<ImageFrame>, Vec<DepthMapU16>))
        ensures
            r.0@ == self.spec_rgb(),
            r.1@ == self.spec_depth(),
    {
        (self.rgb, self.depth)
    }
}

/// Configuration of Diffusers VAE-style image preprocessing.
#[derive(Clone, Copy, Debug, PartialEq, Eq, Structural)]
pub struct VaeImageProcessorConfig {
    /// Whether images are resized to VAE-scale multiples.
    pub do_resize: bool,
    /// VAE scale factor that image dimensions are rounded down to.
    pub vae_scale_factor: usize,
    /// Channel count of latent tensors.
    pub vae_latent_channels: usize,
    /// Output axis order.
    pub output_layout: ImageLayout,
    /// Resize filter.
    pub resample: ResizeFilter,
    /// Resize parity policy.
    pub resize_parity: ResizeParity,
    /// Image decode backend.
    pub decode_backend: ImageDecodeBackend,
    /// Batch execution policy.
    pub batch_execution: BatchExecution,
    /// Optional pixel-format conversion.
    pub pixel_format: Option<PixelFormat>,
    /// Whether values are normalized from `[0, 1]` to `[-1, 1]`.
    pub do_normalize: bool,
    /// Whether values are thresholded to zero or one.
    pub do_binarize: bool,
}

impl Default for VaeImageProcessorConfig {
    fn default() -> (r: Self)
        ensures
            r == (VaeImageProcessorConfig {
                do_resize: true,
                vae_scale_factor: 8,
                vae_latent_channels: 4,
                output_layout: ImageLayout::ChannelsHeightWidth,
                resample: ResizeFilter::Lanczos,
                resize_parity: ResizeParity::Compatibility,
                decode_backend: ImageDecodeBackend::ImageCrate,
                batch_execution: BatchExecution::Sequential,
                pixel_format: None,
                do_normalize: true,
                do_binarize: false,
            }),
    {
        VaeImageProcessorConfig {
            do_resize: true,
            vae_scale_factor: 8,
            vae_latent_channels: 4,
            output_layout: ImageLayout::ChannelsHeightWidth,
            resample: ResizeFilter::Lanczos,
            resize_parity: ResizeParity::Compatibility,
            decode_backend: ImageDecodeBackend::ImageCrate,
            batch_execution: BatchExecution::default(),
            pixel_format: None,
            do_normalize: true,
            do_binarize: false,
        }
    }
}

/// The generic config a VAE config lowers to: no fixed size, rescale by `1 / 255`, the
/// `[0.5; 3]` statistics and the batched output layout.
pub open spec fn vae_generic_config(c: VaeImageProcessorConfig, r: ImageProcessorConfig) -> bool {
    config_is(
        r,
        c.do_resize,
        None,
        None,
        ResizeMode::Default,
        c.resample,
        c.resize_parity,
        c.decode_backend,
        c.batch_execution,
        c.pixel_format,
        true,
        spec_default_rescale_factor(),
        c.do_normalize,
        spec_diffusion_vae_image_mean(),
        spec_diffusion_vae_image_std(),
        c.do_binarize,
        spec_batched_layout_for_image_layout(c.output_layout),
    )
}

impl VaeImageProcessorConfig {
    /// Returns the image output axis order.
    pub fn output_image_layout(&self) -> (r: ImageLayout)
        ensures
            r == self.output_layout,
    {
        self.output_layout
    }

    /// Returns the video output axis order implied by `output_layout`.
    pub fn output_video_layout(&self) -> (r: VideoLayout)
        ensures
            r == spec_video_layout_for_image_layout(self.output_layout),
    {
        video_layout_for_image_layout(self.output_layout)
    }

    /// Returns the resize decision implied by `resample` and `resize_parity`.
    pub fn resize_decision(&self) -> (r: ResizeDecision)
        ensures
            r == (ResizeDecision { filter: self.resample, parity: self.resize_parity }),
    {
        resize_decision_for_parts(self.resample, self.resize_parity)
    }

    /// Lowers this config to the generic tensor-stage config.
    pub fn image_processor_config(&self) -> (r: ImageProcessorConfig)
        ensures
            vae_generic_config(*self, r),
    {
        ImageProcessorConfig {
            do_resize: self.do_resize,
            height: None,
            width: None,
            resize_mode: ResizeMode::Default,
            resample: self.resample,
            resize_parity: self.resize_parity,
            decode_backend: self.decode_backend,
            batch_execution: self.batch_execution,
            pixel_format: self.pixel_format,
            do_rescale: true,
            rescale_factor: default_rescale_factor(),
            do_normalize: self.do_normalize,
            image_mean: diffusion_vae_image_mean(),
            image_std: diffusion_vae_image_std(),
            do_binarize: self.do_binarize,
            output_layout: batched_layout_for_image_layout(self.output_layout),
        }
    }
}

/// The VAE config check: a non-zero scale factor and latent channel count.
pub open spec fn spec_validate_vae_config(c: VaeImageProcessorConfig) -> Result<(), ImageProcessorError> {
    if c.vae_scale_factor == 0 {
        Err(ImageProcessorError::Transform(TransformError::InvalidScaleFactor(c.vae_scale_factor)))
    } else if c.vae_latent_channels == 0 {
        Err(ImageProcessorError::InvalidVaeLatentChannels(c.vae_latent_channels))
    } else {
        Ok(())
    }
}

/// Checks the VAE scale factor and latent channel count.
pub fn validate_vae_config(config: &VaeImageProcessorConfig) -> (r: Result<(), ImageProcessorError>)
    ensures
        r == spec_validate_vae_config(*config),
{
    if config.vae_scale_factor == 0 {
        return Err(ImageProcessorError::Transform(TransformError::InvalidScaleFactor(config.vae_scale_factor)));
    }
    if config.vae_latent_channels == 0 {
        return Err(ImageProcessorError::InvalidVaeLatentChannels(config.vae_latent_channels));
    }
    Ok(())
}

/// Diffusers VAE image processor.
#[derive(Debug, PartialEq, Eq)]
pub struct VaeImageProcessor {
    config: VaeImageProcessorConfig,
    processor: ImageProcessor,
}

/// The size a VAE processor resizes to: the requested size (or the source size), with
/// both dimensions rounded down to multiples of the scale factor when resizing is on.
pub open spec fn spec_vae_target_size(
    c: VaeImageProcessorConfig,
    source: ImageSize,
    options: ImageProcessorOptions,
) -> Result<ImageSize, ImageProcessorError> {
    let height = match options.height {
        Some(h) => h,
        None => source.height,
    };
    let width = match options.width {
        Some(w) => w,
        None => source.width,
    };
    match spec_image_size_new(height, width) {
        Err(e) => Err(ImageProcessorError::Transform(e)),
        Ok(requested) => if !c.do_resize {
            Ok(requested)
        } else {
            match spec_image_size_new(
                (height - height % c.vae_scale_factor) as usize,
                (width - width % c.vae_scale_factor) as usize,
            ) {
                Err(e) => Err(ImageProcessorError::Transform(e)),
                Ok(s) => Ok(s),
            }
        },
    }
}

/// Taking away the remainder by `f` leaves the largest multiple of `f` not above `v`.
proof fn lemma_round_down_to_multiple(v: int, f: int)
    requires
        v >= 0,
        f > 0,
    ensures
        (v - v % f) % f == 0,
        0 <= v - v % f <= v,
        v < (v - v % f) + f,
        v % f == 0 ==> v - v % f == v,
        v >= f ==> v - v % f >= f,
{
    vstd::arithmetic::div_mod::lemma_fundamental_div_mod(v, f);
    let q = v / f;
    assert(v - v % f == q * f) by (nonlinear_arith)
        requires v == f * q + v % f;
    vstd::arithmetic::div_mod::lemma_mod_multiples_basic(q, f);
    if v >= f {
        assert(q >= 1) by (nonlinear_arith)
            requires v == f * q + v % f, v % f < f, v >= f, f > 0;
        assert(q * f >= f) by (nonlinear_arith)
            requires q >= 1, f > 0;
    }
}

/// With resizing on, the target height is the requested height (or the source height)
/// rounded down to a multiple of the scale factor, and the target width is the requested
/// width (or the source width) rounded down likewise; the target is given whenever both
/// of those are at least the scale factor, and refused when either is zero.
pub proof fn vae_target_rounds_down_to_the_scale_factor(
    c: VaeImageProcessorConfig,
    source: ImageSize,
    options: ImageProcessorOptions,
)
    requires
        c.do_resize,
        c.vae_scale_factor > 0,
    ensures
        ({
            let f = c.vae_scale_factor;
            let h = match options.height { Some(x) => x, None => source.height };
            let w = match options.width { Some(x) => x, None => source.width };
            &&& (h == 0 || w == 0) ==> spec_vae_target_size(c, source, options) is Err
            &&& (h >= f && w >= f) ==> spec_vae_target_size(c, source, options) is Ok
            &&& spec_vae_target_size(c, source, options) matches Ok(s) ==> {
                &&& s.height % f == 0
                &&& s.height <= h < s.height + f
                &&& s.width % f == 0
                &&& s.width <= w < s.width + f
            }
        }),
{
    let f = c.vae_scale_factor;
    let h = match options.height { Some(x) => x, None => source.height };
    let w = match options.width { Some(x) => x, None => source.width };
    lemma_round_down_to_multiple(h as int, f as int);
    lemma_round_down_to_multiple(w as int, f as int);
}

/// With resizing off, the target is the requested size (or the source size) as it is,
/// refused only when a dimension is zero.
pub proof fn vae_target_without_resize_is_the_request(
    c: VaeImageProcessorConfig,
    source: ImageSize,
    options: ImageProcessorOptions,
)
    requires
        !c.do_resize,
    ensures
        ({
            let h = match options.height { Some(x) => x, None => source.height };
            let w = match options.width { Some(x) => x, None => source.width };
            &&& (h == 0 || w == 0) ==> spec_vae_target_size(c, source, options) is Err
            &&& (h > 0 && w > 0) ==> spec_vae_target_size(c, source, options)
                == Ok::<ImageSize, ImageProcessorError>(ImageSize { height: h, width: w })
        }),
{
}

/// A size whose dimensions are already multiples of the scale factor is its own target
/// when no size is requested, whether resizing is on or off.
pub proof fn vae_target_keeps_multiples(
    c: VaeImageProcessorConfig,
    source: ImageSize,
    options: ImageProcessorOptions,
)
    requires
        c.vae_scale_factor > 0,
        options.height is None,
        options.width is None,
        source.height > 0,
        source.width > 0,
        source.height % c.vae_scale_factor == 0,
        source.width % c.vae_scale_factor == 0,
    ensures
        spec_vae_target_size(c, source, options) == Ok::<ImageSize, ImageProcessorError>(source),
{
    lemma_round_down_to_multiple(source.height as int, c.vae_scale_factor as int);
    lemma_round_down_to_multiple(source.width as int, c.vae_scale_factor as int);
}

impl VaeImageProcessor {
    /// The VAE configuration of this processor.
    pub closed spec fn spec_config(&self) -> VaeImageProcessorConfig {
        self.config
    }

    /// The tensor stage of this processor.
    pub closed spec fn spec_image_processor(&self) -> ImageProcessor {
        self.processor
    }

    /// Every processor holds a valid configuration and the tensor stage it lowers to.
    #[verifier::type_invariant]
    closed spec fn inv(&self) -> bool {
        &&& spec_validate_vae_config(self.config) is Ok
        &&& vae_generic_config(self.config, self.processor.spec_config())
    }

    /// Creates a processor from a validated VAE configuration.
    pub fn new(config: VaeImageProcessorConfig) -> (r: Result<VaeImageProcessor, ImageProcessorError>)
        ensures
            match spec_validate_vae_config(config) {
                Err(e) => r == Err::<VaeImageProcessor, ImageProcessorError>(e),
                Ok(()) => r matches Ok(p) && p.spec_config() == config
                    && vae_generic_config(config, p.spec_image_processor().spec_config()),
            },
    {
        match validate_vae_config(&config) {
            Ok(()) => {},
            Err(e) => return Err(e),
        }
        let generic = config.image_processor_config();
        let processor = ImageProcessor::from_config(generic);
        assert(vae_generic_config(config, processor.spec_config()));
        Ok(VaeImageProcessor { config, processor })
    }

    /// Returns the VAE configuration.
    pub fn config(&self) -> (r: &VaeImageProcessorConfig)
        ensures
            *r == self.spec_config(),
            spec_validate_vae_config(*r) is Ok,
    {
        proof {
            use_type_invariant(self);
        }
        &self.config
    }

    /// Returns the underlying tensor stage.
    pub fn image_processor(&self) -> (r: &ImageProcessor)
        ensures
            *r == self.spec_image_processor(),
            vae_generic_config(self.spec_config(), r.spec_config()),
    {
        proof {
            use_type_invariant(self);
        }
        &self.processor
    }

    /// Returns the size a frame of `source` size is resized to under `options`.
    pub fn target_size_for_vae_resize(&self, source: ImageSize, options: ImageProcessorOptions) -> (r: Result<ImageSize, ImageProcessorError>)
        ensures
            r == spec_vae_target_size(self.spec_config(), source, options),
    {
        proof {
            use_type_invariant(self);
        }
        let height = match options.height {
            Some(h) => h,
            None => source.height,
        };
        let width = match options.width {
            Some(w) => w,
            None => source.width,
        };
        let requested = match ImageSize::new(height, width) {
            Ok(s) => s,
            Err(e) => return Err(ImageProcessorError::Transform(e)),
        };
        if !self.config.do_resize {
            return Ok(requested);
        }
        let factor = self.config.vae_scale_factor;
        assert(height % factor <= height) by (nonlinear_arith)
            requires factor > 0;
        assert(width % factor <= width) by (nonlinear_arith)
            requires factor > 0;
        match ImageSize::new(height - height % factor, width - width % factor) {
            Ok(s) => Ok(s),
            Err(e) => Err(ImageProcessorError::Transform(e)),
        }
    }

    /// Returns the per-call options that resize a frame of `source` size to the VAE target.
    pub fn options_for_vae_resize(&self, source: ImageSize, options: ImageProcessorOptions) -> (r: Result<ImageProcessorOptions, ImageProcessorError>)
        ensures
            !self.spec_config().do_resize ==> r == Ok::<ImageProcessorOptions, ImageProcessorError>(options),
            self.spec_config().do_resize ==> match spec_vae_target_size(self.spec_config(), source, options) {
                Err(e) => r == Err::<ImageProcessorOptions, ImageProcessorError>(e),
                Ok(s) => r == Ok::<ImageProcessorOptions, ImageProcessorError>(ImageProcessorOptions {
                    height: Some(s.height),
                    width: Some(s.width),
                    resize_mode: options.resize_mode,
                }),
            },
    {
        proof {
            use_type_invariant(self);
        }
        if !self.config.do_resize {
            return Ok(options);
        }
        let size = match self.target_size_for_vae_resize(source, options) {
            Ok(s) => s,
            Err(e) => return Err(e),
        };
        Ok(ImageProcessorOptions { height: Some(size.height), width: Some(size.width), resize_mode: options.resize_mode })
    }

    /// Returns the tensor stage that preprocesses inpaint masks: grayscale input, no
    /// normalization, binarized values.
    pub fn inpaint_mask_processor(&self) -> (r: ImageProcessor)
        ensures
            vae_generic_config(
                VaeImageProcessorConfig {
                    pixel_format: Some(PixelFormat::Luma8),
                    do_normalize: false,
                    do_binarize: true,
                    ..self.spec_config()
                },
                r.spec_config(),
            ),
    {
        let mut config = self.config.clone();
        config.pixel_format = Some(PixelFormat::Luma8);
        config.do_normalize = false;
        config.do_binarize = true;
        ImageProcessor::from_config(config.image_processor_config())
    }
}

impl Clone for VaeImageProcessor {
    fn clone(&self) -> (r: Self)
        ensures
            r.spec_config() == self.spec_config(),
            same_config(r.spec_image_processor().spec_config(), self.spec_image_processor().spec_config()),
    {
        proof {
            use_type_invariant(self);
        }
        VaeImageProcessor { config: self.config, processor: self.processor.duplicate() }
    }
}

impl Clone for DepthMapU16 {
    fn clone(&self) -> (r: Self)
        ensures
            r.spec_width() == self.spec_width(),
            r.spec_height() == self.spec_height(),
            r.spec_data() == self.spec_data(),
    {
        self.duplicate()
    }
}

/// How a VAE tensor is denormalized from `[-1, 1]` to `[0, 1]`.
#[derive(Clone, Debug, PartialEq, Eq)]
pub enum DenormalizePlan {
    /// Leave every sample unchanged.
    Unchanged,
    /// Denormalize every sample.
    All,
    /// Denormalize exactly the samples whose flag is set.
    PerSample(Vec<bool>),
}

/// Decides the denormalization of `sample_count` samples from the processor default and
/// the optional per-sample flags.
pub fn denormalize_plan(
    sample_count: usize,
    default_do_denormalize: bool,
    do_denormalize: Option<&[bool]>,
) -> (r: Result<DenormalizePlan, ImageProcessorError>)
    ensures
        match do_denormalize {
            None => r == Ok::<DenormalizePlan, ImageProcessorError>(
                if default_do_denormalize { DenormalizePlan::All } else { DenormalizePlan::Unchanged },
            ),
            Some(flags) => if flags@.len() != sample_count {
                r == Err::<DenormalizePlan, ImageProcessorError>(
                    ImageProcessorError::InvalidDenormalizeFlags { expected: sample_count, actual: flags@.len() as usize },
                )
            } else if forall|i: int| 0 <= i < flags@.len() ==> flags@[i] {
                r == Ok::<DenormalizePlan, ImageProcessorError>(DenormalizePlan::All)
            } else if forall|i: int| 0 <= i < flags@.len() ==> !flags@[i] {
                r == Ok::<DenormalizePlan, ImageProcessorError>(DenormalizePlan::Unchanged)
            } else {
                r matches Ok(DenormalizePlan::PerSample(v)) && v@ == flags@
            },
        },
{
    let flags = match do_denormalize {
        None => {
            return Ok(if default_do_denormalize { DenormalizePlan::All } else { DenormalizePlan::Unchanged });
        },
        Some(f) => f,
    };
    if flags.len() != sample_count {
        return Err(ImageProcessorError::InvalidDenormalizeFlags { expected: sample_count, actual: flags.len() });
    }
    let mut all_true = true;
    let mut all_false = true;
    let mut i: usize = 0;
    while i < flags.len()
        invariant
            i <= flags@.len(),
            all_true == forall|j: int| 0 <= j < i ==> flags@[j],
            all_false == forall|j: int| 0 <= j < i ==> !flags@[j],
        decreases flags@.len() - i,
    {
        if flags[i] {
            all_false = false;
        } else {
            all_true = false;
        }
        i = i + 1;
    }
    if all_true {
        return Ok(DenormalizePlan::All);
    }
    if all_false {
        return Ok(DenormalizePlan::Unchanged);
    }
    let mut copy: Vec<bool> = Vec::new();
    let mut k: usize = 0;
    while k < flags.len()
        invariant
            k <= flags@.len(),
            copy@ == flags@.take(k as int),
        decreases flags@.len() - k,
    {
        copy.push(flags[k]);
        k = k + 1;
        assert(copy@ =~= flags@.take(k as int));
    }
    assert(flags@.take(k as int) =~= flags@);
    Ok(DenormalizePlan::PerSample(copy))
}

/// Returns the number of samples a tensor of `layout` and `shape` holds.
pub fn tensor_sample_count(layout: Layout, shape: &[usize]) -> (r: Result<usize, ImageProcessorError>)
    requires
        shape@.len() > 0,
    ensures
        match layout {
            Layout::NCHW | Layout::NHWC | Layout::BFCHW | Layout::BFHWC => r == Ok::<usize, ImageProcessorError>(shape@[0]),
            Layout::CHW | Layout::HWC => r == Ok::<usize, ImageProcessorError>(1),
            _ => r == Err::<usize, ImageProcessorError>(ImageProcessorError::UnsupportedLayout(layout)),
        },
{
    match layout {
        Layout::NCHW | Layout::NHWC | Layout::BFCHW | Layout::BFHWC => Ok(shape[0]),
        Layout::CHW | Layout::HWC => Ok(1),
        _ => Err(ImageProcessorError::UnsupportedLayout(layout)),
    }
}

/// Returns the channel-last layout of array postprocessing for `layout`.
pub fn channel_last_layout(layout: Layout) -> (r: Result<Layout, ImageProcessorError>)
    ensures
        match layout {
            Layout::NCHW | Layout::NHWC => r == Ok::<Layout, ImageProcessorError>(Layout::NHWC),
            Layout::CHW | Layout::HWC => r == Ok::<Layout, ImageProcessorError>(Layout::HWC),
            Layout::BFCHW | Layout::BFHWC => r == Ok::<Layout, ImageProcessorError>(Layout::BFHWC),
            _ => r == Err::<Layout, ImageProcessorError>(ImageProcessorError::UnsupportedLayout(layout)),
        },
{
    match layout {
        Layout::NCHW | Layout::NHWC => Ok(Layout::NHWC),
        Layout::CHW | Layout::HWC => Ok(Layout::HWC),
        Layout::BFCHW | Layout::BFHWC => Ok(Layout::BFHWC),
        _ => Err(ImageProcessorError::UnsupportedLayout(layout)),
    }
}

/// What `image::imageops::resize` returns for a single-channel 16-bit image.
pub uninterp spec fn luma16_resized(
    pixels: Seq<u16>,
    width: u32,
    height: u32,
    new_width: u32,
    new_height: u32,
    filter: ResizeFilter,
) -> Seq<u16>;

/// Resizes a single-channel 16-bit image with `image::imageops::resize`, mapping the
/// filter to the `image` crate's Nearest, Triangle, CatmullRom or Lanczos3 kernel.
/// The contract names the resampled values and states two facts the crate's source
/// shows: the output holds `new_width * new_height` values, and a resize to the same
/// dimensions copies the input. The source image and both output dimensions must be
/// non-zero and the crate's intermediate buffers must fit in `usize`, as the crate
/// otherwise panics.
#[verifier::external_body]
fn resize_luma16(pixels: &[u16], width: u32, height: u32, new_width: u32, new_height: u32, filter: ResizeFilter) -> (r: Vec<u16>)
    requires
        width > 0,
        height > 0,
        new_width > 0,
        new_height > 0,
        pixels@.len() == width * height,
        4 * width * new_height <= usize::MAX,
        4 * new_width * new_height <= usize::MAX,
    ensures
        r@ == luma16_resized(pixels@, width, height, new_width, new_height, filter),
        r@.len() == new_width * new_height,
        new_width == width && new_height == height ==> r@ == pixels@,
{
    let kernel = match filter {
        ResizeFilter::Nearest => FilterType::Nearest,
        ResizeFilter::Bilinear => FilterType::Triangle,
        ResizeFilter::Bicubic => FilterType::CatmullRom,
        ResizeFilter::Lanczos => FilterType::Lanczos3,
    };
    match ImageBuffer::<Luma<u16>, Vec<u16>>::from_raw(width, height, pixels.to_vec()) {
        Some(buffer) => image::imageops::resize(&buffer, new_width, new_height, kernel).into_raw(),
        None => Vec::new(),
    }
}

/// Checks that a dimension fits in `u32`.
fn u32_dimension(value: usize, dimension: &'static str) -> (r: Result<u32, ImageProcessorError>)
    ensures
        value <= u32::MAX ==> r == Ok::<u32, ImageProcessorError>(value as u32),
        value > u32::MAX ==> r == Err::<u32, ImageProcessorError>(ImageProcessorError::Transform(
            TransformError::DimensionTooLarge { dimension, value, max: u32::MAX as usize },
        )),
{
    if value <= 0xFFFF_FFFFusize {
        Ok(value as u32)
    } else {
        Err(ImageProcessorError::Transform(TransformError::DimensionTooLarge { dimension, value, max: 0xFFFF_FFFFusize }))
    }
}

/// The error of resizing a `source`-sized depth map to `target`, if any: a dimension
/// that does not fit in `u32` (source width, source height, target width, target height,
/// checked in that order), resampling buffers whose byte size does not fit in `usize`, or
/// a target with a zero dimension, which the resampled map cannot have. A map that
/// already has the target size is never resized.
pub open spec fn spec_depth_resize_error(source: ImageSize, target: ImageSize) -> Option<ImageProcessorError> {
    if source == target {
        None
    } else if source.width > u32::MAX {
        Some(ImageProcessorError::Transform(TransformError::DimensionTooLarge {
            dimension: "source width", value: source.width, max: u32::MAX as usize,
        }))
    } else if source.height > u32::MAX {
        Some(ImageProcessorError::Transform(TransformError::DimensionTooLarge {
            dimension: "source height", value: source.height, max: u32::MAX as usize,
        }))
    } else if target.width > u32::MAX {
        Some(ImageProcessorError::Transform(TransformError::DimensionTooLarge {
            dimension: "target width", value: target.width, max: u32::MAX as usize,
        }))
    } else if target.height > u32::MAX {
        Some(ImageProcessorError::Transform(TransformError::DimensionTooLarge {
            dimension: "target height", value: target.height, max: u32::MAX as usize,
        }))
    } else if 4 * source.width * target.height > usize::MAX || 4 * target.width * target.height > usize::MAX {
        Some(ImageProcessorError::Transform(TransformError::ImageSizeOverflow))
    } else if target.height == 0 || target.width == 0 {
        Some(ImageProcessorError::Transform(TransformError::InvalidSize { height: target.height, width: target.width }))
    } else {
        None
    }
}

/// The values of `depth` brought to `target` with `filter`: unchanged at the target size,
/// otherwise the `image` crate's resampling of the map.
pub open spec fn spec_depth_resized(depth: DepthMapU16, target: ImageSize, filter: ResizeFilter) -> Seq<u16> {
    if depth.spec_size() == target {
        depth.spec_data()
    } else {
        luma16_resized(
            depth.spec_data(),
            depth.spec_width() as u32,
            depth.spec_height() as u32,
            target.width as u32,
            target.height as u32,
            filter,
        )
    }
}

/// Resizes a depth map to `target` with `filter`; a map that already has the target size
/// is returned unchanged.
#[verifier::rlimit(40)]
pub fn resize_depth_map(depth: &DepthMapU16, target: ImageSize, filter: ResizeFilter) -> (r: Result<DepthMapU16, ImageProcessorError>)
    ensures
        match spec_depth_resize_error(depth.spec_size(), target) {
            Some(e) => r == Err::<DepthMapU16, ImageProcessorError>(e),
            None => r matches Ok(m) && m.spec_width() == target.width && m.spec_height() == target.height
                && m.spec_data() == spec_depth_resized(*depth, target, filter),
        },
{
    proof {
        use_type_invariant(depth);
    }
    let source = depth.size();
    if source.height == target.height && source.width == target.width {
        return Ok(depth.duplicate());
    }
    let source_width = match u32_dimension(source.width, "source width") {
        Ok(v) => v,
        Err(e) => return Err(e),
    };
    let source_height = match u32_dimension(source.height, "source height") {
        Ok(v) => v,
        Err(e) => return Err(e),
    };
    let target_width = match u32_dimension(target.width, "target width") {
        Ok(v) => v,
        Err(e) => return Err(e),
    };
    let target_height = match u32_dimension(target.height, "target height") {
        Ok(v) => v,
        Err(e) => return Err(e),
    };
    let fits_source = match source.width.checked_mul(target.height) {
        Some(v) => v.checked_mul(4).is_some(),
        None => false,
    };
    let fits_target = match target.width.checked_mul(target.height) {
        Some(v) => v.checked_mul(4).is_some(),
        None => false,
    };
    assert(fits_source <==> 4 * source.width * target.height <= usize::MAX) by (nonlinear_arith)
        requires
            fits_source <==> (source.width * target.height <= usize::MAX && 4 * (source.width * target.height) <= usize::MAX),
            source.width >= 0, target.height >= 0;
    assert(fits_target <==> 4 * target.width * target.height <= usize::MAX) by (nonlinear_arith)
        requires
            fits_target <==> (target.width * target.height <= usize::MAX && 4 * (target.width * target.height) <= usize::MAX),
            target.width >= 0, target.height >= 0;
    if !fits_source || !fits_target {
        return Err(ImageProcessorError::Transform(TransformError::ImageSizeOverflow));
    }
    if target.height == 0 || target.width == 0 {
        return Err(ImageProcessorError::Transform(TransformError::InvalidSize { height: target.height, width: target.width }));
    }
    assert(4 * source_width * target_height == 4 * (source.width * target.height)) by (nonlinear_arith)
        requires source_width == source.width, target_height == target.height;
    assert(4 * target_width * target_height == 4 * (target.width * target.height)) by (nonlinear_arith)
        requires target_width == target.width, target_height == target.height;
    let resized = resize_luma16(depth.data(), source_width, source_height, target_width, target_height, filter);
    assert(resized@.len() == target.width * target.height);
    assert(target.width * target.height <= usize::MAX);
    assert(spec_depth_map_check(target.width, target.height, resized@.len()) is Ok);
    assert(resized@ == spec_depth_resized(*depth, target, filter));
    DepthMapU16::new(target.width, target.height, resized)
}

/// Checks that an LDM3D depth map has the size of its RGB image.
pub fn validate_ldm3d_depth_size(depth: &DepthMapU16, expected: ImageSize) -> (r: Result<(), ImageProcessorError>)
    ensures
        (ImageSize { height: depth.spec_height(), width: depth.spec_width() }) == expected ==> r is Ok,
        (ImageSize { height: depth.spec_height(), width: depth.spec_width() }) != expected ==> r == Err::<(), ImageProcessorError>(
            ImageProcessorError::Transform(TransformError::IncompatibleFrameSize {
                frame: "depth",
                expected,
                actual: ImageSize { height: depth.spec_height(), width: depth.spec_width() },
            }),
        ),
{
    let actual = depth.size();
    if actual.height == expected.height && actual.width == expected.width {
        Ok(())
    } else {
        Err(ImageProcessorError::Transform(TransformError::IncompatibleFrameSize { frame: "depth", expected, actual }))
    }
}

} // verus!

verus! {

/// Diffusers LDM3D VAE image processor.
#[derive(Clone, Debug)]
pub struct VaeImageProcessorLdm3d {
    processor: VaeImageProcessor,
}

/// The LDM3D batch check and target: both batches non-empty and of equal length; the
/// first RGB frame selects the VAE target, or gives its own size when resizing is off.
pub open spec fn spec_ldm3d_batch_target(
    c: VaeImageProcessorConfig,
    rgb_sizes: Seq<ImageSize>,
    depth_count: nat,
    options: ImageProcessorOptions,
) -> Result<ImageSize, ImageProcessorError> {
    if rgb_sizes.len() == 0 || depth_count == 0 {
        Err(ImageProcessorError::EmptyBatch)
    } else if rgb_sizes.len() != depth_count {
        Err(ImageProcessorError::IncompatibleBatchShapes)
    } else if c.do_resize {
        spec_vae_target_size(
            c,
            rgb_sizes[0],
            ImageProcessorOptions { resize_mode: Some(ResizeMode::Default), ..options },
        )
    } else {
        match spec_image_size_new(rgb_sizes[0].height, rgb_sizes[0].width) {
            Err(e) => Err(ImageProcessorError::Transform(e)),
            Ok(s) => Ok(s),
        }
    }
}

impl VaeImageProcessorLdm3d {
    /// The underlying VAE processor.
    pub closed spec fn spec_vae_processor(&self) -> VaeImageProcessor {
        self.processor
    }

    /// Creates an LDM3D processor from a validated VAE configuration.
    pub fn new(config: VaeImageProcessorConfig) -> (r: Result<VaeImageProcessorLdm3d, ImageProcessorError>)
        ensures
            match spec_validate_vae_config(config) {
                Err(e) => r == Err::<VaeImageProcessorLdm3d, ImageProcessorError>(e),
                Ok(()) => r matches Ok(p) && p.spec_vae_processor().spec_config() == config,
            },
    {
        match VaeImageProcessor::new(config) {
            Ok(processor) => Ok(VaeImageProcessorLdm3d { processor }),
            Err(e) => Err(e),
        }
    }

    /// Returns the VAE configuration.
    pub fn config(&self) -> (r: &VaeImageProcessorConfig)
        ensures
            *r == self.spec_vae_processor().spec_config(),
    {
        self.processor.config()
    }

    /// Returns the underlying VAE processor.
    pub fn vae_processor(&self) -> (r: &VaeImageProcessor)
        ensures
            *r == self.spec_vae_processor(),
    {
        &self.processor
    }

    /// Checks an RGB/depth batch and returns the size both are brought to.
    pub fn batch_target_size(&self, rgb_sizes: &[ImageSize], depth_count: usize, options: ImageProcessorOptions) -> (r: Result<ImageSize, ImageProcessorError>)
        ensures
            r == spec_ldm3d_batch_target(self.spec_vae_processor().spec_config(), rgb_sizes@, depth_count as nat, options),
    {
        if rgb_sizes.len() == 0 || depth_count == 0 {
            return Err(ImageProcessorError::EmptyBatch);
        }
        if rgb_sizes.len() != depth_count {
            return Err(ImageProcessorError::IncompatibleBatchShapes);
        }
        let options = ImageProcessorOptions { resize_mode: Some(ResizeMode::Default), ..options };
        let first = rgb_sizes[0];
        if self.processor.config().do_resize {
            self.processor.target_size_for_vae_resize(first, options)
        } else {
            match ImageSize::new(first.height, first.width) {
                Ok(s) => Ok(s),
                Err(e) => Err(ImageProcessorError::Transform(e)),
            }
        }
    }

    /// Brings every depth map to `target`: resized when the processor resizes, otherwise
    /// checked to already have that size.
    pub fn prepare_depth_maps(&self, depth: &[DepthMapU16], target: ImageSize) -> (r: Result<Vec<DepthMapU16>, ImageProcessorError>)
        ensures
            r matches Ok(maps) ==> maps@.len() == depth@.len() && forall|i: int| 0 <= i < maps@.len() ==>
                (#[trigger] maps@[i]).spec_size() == target,
            !self.spec_vae_processor().spec_config().do_resize ==> {
                &&& (r is Ok <==> forall|i: int| 0 <= i < depth@.len() ==> (#[trigger] depth@[i]).spec_size() == target)
                &&& (r matches Ok(maps) ==> forall|i: int| 0 <= i < maps@.len() ==> (#[trigger] maps@[i]).spec_data() == depth@[i].spec_data())
                &&& (r matches Err(e) ==> exists|i: int| 0 <= i < depth@.len() && e == ImageProcessorError::Transform(
                    TransformError::IncompatibleFrameSize { frame: "depth", expected: target, actual: (#[trigger] depth@[i]).spec_size() },
                ) && forall|j: int| 0 <= j < i ==> (#[trigger] depth@[j]).spec_size() == target)
            },
            self.spec_vae_processor().spec_config().do_resize ==> {
                &&& (r is Ok <==> forall|i: int| 0 <= i < depth@.len() ==> spec_depth_resize_error((#[trigger] depth@[i]).spec_size(), target) is None)
                &&& (r matches Ok(maps) ==> forall|i: int| 0 <= i < maps@.len() ==> (#[trigger] maps@[i]).spec_data()
                    == spec_depth_resized(depth@[i], target, self.spec_vae_processor().spec_config().resample))
                &&& (r matches Err(e) ==> exists|i: int| 0 <= i < depth@.len()
                    && spec_depth_resize_error((#[trigger] depth@[i]).spec_size(), target) == Some(e)
                    && forall|j: int| 0 <= j < i ==> spec_depth_resize_error((#[trigger] depth@[j]).spec_size(), target) is None)
            },
    {
        let do_resize = self.processor.config().do_resize;
        let filter = self.processor.config().resample;
        let mut maps: Vec<DepthMapU16> = Vec::new();
        let mut i: usize = 0;
        while i < depth.len()
            invariant
                i <= depth@.len(),
                do_resize == self.spec_vae_processor().spec_config().do_resize,
                maps@.len() == i,
                forall|j: int| 0 <= j < i ==> (#[trigger] maps@[j]).spec_size() == target,
                !do_resize ==> forall|j: int| 0 <= j < i ==> (#[trigger] depth@[j]).spec_size() == target,
                !do_resize ==> forall|j: int| 0 <= j < i ==> (#[trigger] maps@[j]).spec_data() == depth@[j].spec_data(),
                filter == self.spec_vae_processor().spec_config().resample,
                do_resize ==> forall|j: int| 0 <= j < i ==> spec_depth_resize_error((#[trigger] depth@[j]).spec_size(), target) is None,
                do_resize ==> forall|j: int| 0 <= j < i ==> (#[trigger] maps@[j]).spec_data() == spec_depth_resized(depth@[j], target, filter),
            decreases depth@.len() - i,
        {
            let map = &depth[i];
            let prepared = if do_resize {
                match resize_depth_map(map, target, filter) {
                    Ok(m) => m,
                    Err(e) => return Err(e),
                }
            } else {
                let actual = map.size();
                if actual.height != target.height || actual.width != target.width {
                    return Err(ImageProcessorError::Transform(
                        TransformError::IncompatibleFrameSize { frame: "depth", expected: target, actual },
                    ));
                }
                map.duplicate()
            };
            maps.push(prepared);
            i = i + 1;
        }
        Ok(maps)
    }
}


/// Keeps the values of the samples whose flag is off and takes those of the samples
/// whose flag is on from `mapped`: value `k` belongs to sample `k / item_len`, where
/// `item_len` is the value count over the flag count, and values past
/// `item_len * flags.len()` are dropped.
pub fn select_per_sample<T: Copy>(values: &[T], mapped: &[T], flags: &[bool]) -> (r: Result<Vec<T>, ImageProcessorError>)
    requires
        mapped@.len() == values@.len(),
    ensures
        flags@.len() == 0 ==> r == Err::<Vec<T>, ImageProcessorError>(ImageProcessorError::IncompatibleBatchShapes),
        flags@.len() > 0 ==> (r matches Ok(out) && {
            let item_len = (values@.len() / flags@.len()) as int;
            &&& out@.len() == item_len * flags@.len()
            &&& forall|k: int| 0 <= k < out@.len() ==> (#[trigger] out@[k]) == if flags@[k / (item_len as int)] {
                mapped@[k]
            } else {
                values@[k]
            }
        }),
{
    if flags.len() == 0 {
        return Err(ImageProcessorError::IncompatibleBatchShapes);
    }
    let value_count = values.len();
    assert(value_count == values@.len());
    let item_len = values.len() / flags.len();
    assert(item_len * flags@.len() <= values@.len() && flags@.len() * item_len <= values@.len()) by (nonlinear_arith)
        requires item_len == values@.len() / flags@.len(), flags@.len() > 0;
    let mut out: Vec<T> = Vec::new();
    let mut sample: usize = 0;
    while sample < flags.len()
        invariant
            flags@.len() > 0,
            item_len == values@.len() / flags@.len(),
            item_len * flags@.len() <= values@.len(),
            flags@.len() * item_len <= values@.len(),
            values@.len() <= usize::MAX,
            mapped@.len() == values@.len(),
            sample <= flags@.len(),
            out@.len() == sample * item_len,
            forall|k: int| 0 <= k < out@.len() ==> (#[trigger] out@[k]) == if flags@[k / (item_len as int)] {
                mapped@[k]
            } else {
                values@[k]
            },
        decreases flags@.len() - sample,
    {
        assert((sample + 1) * item_len <= flags@.len() * item_len && sample * item_len + item_len == (sample + 1) * item_len)
            by (nonlinear_arith)
            requires sample < flags@.len(), item_len >= 0;
        let flag = flags[sample];
        assert(sample * item_len <= (sample + 1) * item_len) by (nonlinear_arith) requires item_len >= 0;
        let start = sample * item_len;
        let mut j: usize = 0;
        while j < item_len
            invariant
                flags@.len() > 0,
                item_len == values@.len() / flags@.len(),
                item_len * flags@.len() <= values@.len(),
                (sample + 1) * item_len <= flags@.len() * item_len,
                flags@.len() * item_len <= values@.len(),
                values@.len() <= usize::MAX,
                sample * item_len + item_len == (sample + 1) * item_len,
                mapped@.len() == values@.len(),
                sample < flags@.len(),
                flag == flags@[sample as int],
                start == sample * item_len,
                j <= item_len,
                out@.len() == start + j,
                forall|k: int| 0 <= k < out@.len() ==> (#[trigger] out@[k]) == if flags@[k / (item_len as int)] {
                    mapped@[k]
                } else {
                    values@[k]
                },
            decreases item_len - j,
        {
            let k = start + j;
            assert((k as int) / (item_len as int) == sample) by {
                lemma_fundamental_div_mod_converse_div(k as int, item_len as int, sample as int, j as int);
            }
            if flag {
                out.push(mapped[k]);
            } else {
                out.push(values[k]);
            }
            j = j + 1;
        }
        sample = sample + 1;
    }
    assert(sample * item_len == item_len * flags@.len()) by (nonlinear_arith)
        requires sample == flags@.len();
    Ok(out)
}

/// The LDM3D sample check: four (RGB and a 16-bit depth value) or six (RGB, unused,
/// and two depth bytes) channels, and exactly `height * width * channels` values; on
/// success the pixel count.
pub open spec fn spec_ldm3d_sample_layout(height: usize, width: usize, channels: usize, sample_len: nat) -> Result<usize, ImageProcessorError> {
    if channels != 4 && channels != 6 {
        Err(ImageProcessorError::Transform(TransformError::UnsupportedChannels(channels)))
    } else if height * width > usize::MAX || height * width * channels > usize::MAX {
        Err(ImageProcessorError::Transform(TransformError::ImageSizeOverflow))
    } else if sample_len != height * width * channels {
        Err(ImageProcessorError::Transform(TransformError::InvalidBufferLength {
            expected: (height * width * channels) as usize,
            actual: sample_len as usize,
        }))
    } else {
        Ok((height * width) as usize)
    }
}

/// Checks one channel-last LDM3D sample and splits each pixel into its three RGB values
/// and its `channels - 3` depth values, both in pixel order.
pub fn ldm3d_split_sample<T: Copy>(sample: &[T], height: usize, width: usize, channels: usize) -> (r: Result<(Vec<T>, Vec<T>), ImageProcessorError>)
    ensures
        match spec_ldm3d_sample_layout(height, width, channels, sample@.len()) {
            Err(e) => r == Err::<(Vec<T>, Vec<T>), ImageProcessorError>(e),
            Ok(pixels) => r matches Ok((rgb, depth)) && {
                &&& rgb@.len() == 3 * pixels
                &&& depth@.len() == (channels - 3) * pixels
                &&& forall|p: int, c: int| 0 <= p < pixels && 0 <= c < 3 ==>
                    #[trigger] rgb@[3 * p + c] == sample@[p * channels + c]
                &&& forall|p: int, d: int| 0 <= p < pixels && 0 <= d < channels - 3 ==>
                    #[trigger] depth@[p * (channels - 3) + d] == sample@[p * channels + 3 + d]
            },
        },
{
    if channels != 4 && channels != 6 {
        return Err(ImageProcessorError::Transform(TransformError::UnsupportedChannels(channels)));
    }
    let pixels = match height.checked_mul(width) {
        Some(v) => v,
        None => return Err(ImageProcessorError::Transform(TransformError::ImageSizeOverflow)),
    };
    let expected = match pixels.checked_mul(channels) {
        Some(v) => v,
        None => return Err(ImageProcessorError::Transform(TransformError::ImageSizeOverflow)),
    };
    if sample.len() != expected {
        return Err(ImageProcessorError::Transform(TransformError::InvalidBufferLength { expected, actual: sample.len() }));
    }
    let extra: usize = channels - 3;
    let mut rgb: Vec<T> = Vec::new();
    let mut depth: Vec<T> = Vec::new();
    let mut p: usize = 0;
    while p < pixels
        invariant
            channels == 4 || channels == 6,
            extra == channels - 3,
            sample@.len() == pixels * channels,
            sample@.len() <= usize::MAX,
            p <= pixels,
            rgb@.len() == 3 * p,
            depth@.len() == extra * p,
            forall|q: int, c: int| 0 <= q < p && 0 <= c < 3 ==> #[trigger] rgb@[3 * q + c] == sample@[q * channels + c],
            forall|q: int, d: int| 0 <= q < p && 0 <= d < extra ==> #[trigger] depth@[q * extra + d] == sample@[q * channels + 3 + d],
        decreases pixels - p,
    {
        assert((p + 1) * channels <= pixels * channels && p * channels + channels == (p + 1) * channels) by (nonlinear_arith)
            requires p < pixels, channels >= 0;
        assert(p * channels <= (p + 1) * channels) by (nonlinear_arith) requires channels >= 0;
        let offset = p * channels;
        let ghost rgb_before = rgb@;
        let ghost depth_before = depth@;
        rgb.push(sample[offset]);
        rgb.push(sample[offset + 1]);
        rgb.push(sample[offset + 2]);
        let mut d: usize = 0;
        while d < extra
            invariant
                channels == 4 || channels == 6,
                extra == channels - 3,
                sample@.len() == pixels * channels,
                sample@.len() <= usize::MAX,
                p < pixels,
                offset == p * channels,
                offset + channels <= sample@.len(),
                d <= extra,
                depth@.len() == extra * p + d,
                depth@.subrange(0, extra * p) == depth_before,
                forall|e: int| 0 <= e < d ==> #[trigger] depth@[extra * p + e] == sample@[offset + 3 + e],
            decreases extra - d,
        {
            depth.push(sample[offset + 3 + d]);
            d = d + 1;
        }
        assert(extra * p + extra == extra * (p + 1)) by (nonlinear_arith);
        assert forall|q: int, c: int| 0 <= q < p + 1 && 0 <= c < 3 implies #[trigger] rgb@[3 * q + c] == sample@[q * channels + c] by {
            if q < p {
                assert(rgb@[3 * q + c] == rgb_before[3 * q + c]);
            }
        }
        assert forall|q: int, d2: int| 0 <= q < p + 1 && 0 <= d2 < extra implies #[trigger] depth@[q * extra + d2] == sample@[q * channels + 3 + d2] by {
            assert(q * extra + d2 < extra * p + extra) by (nonlinear_arith)
                requires q < p + 1, d2 < extra, 0 <= q, 0 <= d2;
            if q < p {
                assert(q * extra + d2 < extra * p) by (nonlinear_arith)
                    requires q < p, d2 < extra, 0 <= d2;
                assert(depth@[q * extra + d2] == depth_before[q * extra + d2]);
            } else {
                assert(q * extra == extra * p) by (nonlinear_arith) requires q == p;
                assert(q * channels == offset) by (nonlinear_arith) requires q == p, offset == p * channels;
            }
        }
        p = p + 1;
    }
    Ok((rgb, depth))
}

/// Combines the two depth bytes of a six-channel LDM3D sample into a 16-bit depth value.
pub fn ldm3d_depth_from_bytes(high: u8, low: u8) -> (r: u16)
    ensures
        r == high * 256 + low,
{
    high as u16 * 256 + low as u16
}

/// The (batch, height, width, channels) of a channel-last LDM3D output: a batched `NHWC`
/// tensor or a single `HWC` image; any other layout is unsupported.
pub open spec fn spec_ldm3d_output_dims(layout: Layout, shape: Seq<usize>) -> Result<(usize, usize, usize, usize), ImageProcessorError> {
    match layout {
        Layout::NHWC => Ok((shape[0], shape[1], shape[2], shape[3])),
        Layout::HWC => Ok((1usize, shape[0], shape[1], shape[2])),
        _ => Err(ImageProcessorError::UnsupportedLayout(layout)),
    }
}

/// Returns the (batch, height, width, channels) of a channel-last LDM3D output.
pub fn ldm3d_output_dims(layout: Layout, shape: &[usize]) -> (r: Result<(usize, usize, usize, usize), ImageProcessorError>)
    requires
        layout == Layout::NHWC ==> shape@.len() == 4,
        layout == Layout::HWC ==> shape@.len() == 3,
    ensures
        r == spec_ldm3d_output_dims(layout, shape@),
{
    match layout {
        Layout::NHWC => Ok((shape[0], shape[1], shape[2], shape[3])),
        Layout::HWC => Ok((1, shape[0], shape[1], shape[2])),
        _ => Err(ImageProcessorError::UnsupportedLayout(layout)),
    }
}

/// Whether `r` is the VAE recipe of `c`: an optional pixel-format conversion, a resize to
/// a per-call size when resizing is on, rescaling by `1/255`, normalization to `[-1, 1]`
/// when it is on and binarization when it is on, with the batched layout of the output
/// layout and no postprocessing.
pub open spec fn vae_recipe_is(c: VaeImageProcessorConfig, r: ProcessorRecipe) -> bool {
    let convert = if c.pixel_format is Some { 1int } else { 0 };
    let rescale_at = convert + if c.do_resize { 1int } else { 0 };
    let normalize_at = rescale_at + 1;
    let binarize_at = normalize_at + if c.do_normalize { 1int } else { 0 };
    &&& r.id == "diffusers.vae_image_processor"
    &&& r.decode_backend == c.decode_backend
    &&& r.batch_execution == c.batch_execution
    &&& r.output_layout == spec_batched_layout_for_image_layout(c.output_layout)
    &&& r.postprocess@.len() == 0
    &&& r.stages@.len() == binarize_at + if c.do_binarize { 1int } else { 0 }
    &&& (c.pixel_format matches Some(f) ==> r.stages@[0] == RecipeStage::ConvertPixelFormat(f))
    &&& (c.do_resize ==> r.stages@[convert] == RecipeStage::Resize(RecipeResize::Dynamic {
        mode: ResizeMode::Default,
        filter: c.resample,
        parity: c.resize_parity,
    }))
    &&& r.stages@[rescale_at] == RecipeStage::Rescale(spec_default_rescale_factor())
    &&& (c.do_normalize ==> normalize_stage_is(r.stages@[normalize_at], spec_diffusion_vae_image_mean(), spec_diffusion_vae_image_std()))
    &&& (c.do_binarize ==> r.stages@[binarize_at] == RecipeStage::Binarize)
}

impl VaeImageProcessorConfig {
    /// Builds the declarative recipe of this configuration.
    pub fn processor_recipe(&self) -> (r: ProcessorRecipe)
        ensures
            vae_recipe_is(*self, r),
    {
        let mut stages: Vec<RecipeStage> = Vec::new();
        if let Some(format) = self.pixel_format {
            stages.push(RecipeStage::ConvertPixelFormat(format));
        }
        let ghost after_convert = stages@;
        if self.do_resize {
            stages.push(RecipeStage::Resize(RecipeResize::Dynamic {
                mode: ResizeMode::Default,
                filter: self.resample,
                parity: self.resize_parity,
            }));
        }
        let ghost after_resize = stages@;
        stages.push(RecipeStage::Rescale(default_rescale_factor()));
        let ghost after_rescale = stages@;
        if self.do_normalize {
            stages.push(RecipeStage::Normalize { mean: diffusion_vae_image_mean(), std: diffusion_vae_image_std() });
        }
        let ghost after_normalize = stages@;
        if self.do_binarize {
            stages.push(RecipeStage::Binarize);
        }
        assert(stages@.subrange(0, after_normalize.len() as int) =~= after_normalize);
        assert(after_normalize.subrange(0, after_rescale.len() as int) =~= after_rescale);
        assert(after_rescale.subrange(0, after_resize.len() as int) =~= after_resize);
        assert(after_resize.subrange(0, after_convert.len() as int) =~= after_convert);
        ProcessorRecipe {
            id: "diffusers.vae_image_processor",
            decode_backend: self.decode_backend,
            batch_execution: self.batch_execution,
            stages,
            output_layout: batched_layout_for_image_layout(self.output_layout),
            postprocess: Vec::new(),
        }
    }
}

/// A tensor's values (`f32` bit patterns), shape and layout.
#[derive(Clone, Debug, PartialEq)]
pub struct TensorValues {
    /// Values in layout order.
    pub values: Vec<u32>,
    /// Shape.
    pub shape: Vec<usize>,
    /// Axis order.
    pub layout: Layout,
}

/// Number of values a tensor of `layout` and `shape` holds, for the image and video
/// layouts.
pub open spec fn layout_value_count(layout: Layout, shape: Seq<usize>) -> int {
    match layout {
        Layout::NCHW | Layout::NHWC => shape[0] * shape[1] * shape[2] * shape[3],
        Layout::CHW | Layout::HWC => shape[0] * shape[1] * shape[2],
        Layout::BFCHW | Layout::BFHWC => shape[0] * shape[1] * shape[2] * shape[3] * shape[4],
        _ => 0,
    }
}

/// Whether `values` and `shape` form a tensor of `layout`: the layout's rank, no zero
/// dimension, and one value per element.
pub open spec fn tensor_values_wf(values: Seq<u32>, shape: Seq<usize>, layout: Layout) -> bool {
    &&& match layout {
        Layout::NCHW | Layout::NHWC => shape.len() == 4,
        Layout::CHW | Layout::HWC => shape.len() == 3,
        Layout::BFCHW | Layout::BFHWC => shape.len() == 5,
        _ => shape.len() >= 1,
    }
    &&& forall|i: int| 0 <= i < shape.len() ==> shape[i] > 0
    &&& (spec_channel_last_layout(layout) is Ok ==> values.len() == layout_value_count(layout, shape))
}

/// The number of samples of a tensor of `layout` and `shape`.
pub open spec fn spec_tensor_sample_count(layout: Layout, shape: Seq<usize>) -> Result<usize, ImageProcessorError> {
    match layout {
        Layout::NCHW | Layout::NHWC | Layout::BFCHW | Layout::BFHWC => Ok(shape[0]),
        Layout::CHW | Layout::HWC => Ok(1usize),
        _ => Err(ImageProcessorError::UnsupportedLayout(layout)),
    }
}

/// The channel-last layout of `layout`.
pub open spec fn spec_channel_last_layout(layout: Layout) -> Result<Layout, ImageProcessorError> {
    match layout {
        Layout::NCHW | Layout::NHWC => Ok(Layout::NHWC),
        Layout::CHW | Layout::HWC => Ok(Layout::HWC),
        Layout::BFCHW | Layout::BFHWC => Ok(Layout::BFHWC),
        _ => Err(ImageProcessorError::UnsupportedLayout(layout)),
    }
}

/// The (items, channels, plane) of a planar layout, where the channels stand before the
/// spatial axes.
pub open spec fn planar_dims(layout: Layout, shape: Seq<usize>) -> Option<(int, int, int)> {
    match layout {
        Layout::NCHW => Some((shape[0] as int, shape[1] as int, shape[2] * shape[3])),
        Layout::CHW => Some((1int, shape[0] as int, shape[1] * shape[2])),
        Layout::BFCHW => Some((shape[0] * shape[1], shape[2] as int, shape[3] * shape[4])),
        _ => None,
    }
}

/// The shape of the channel-last copy of a tensor of `layout` and `shape`.
pub open spec fn channel_last_shape(layout: Layout, shape: Seq<usize>) -> Seq<usize> {
    match layout {
        Layout::NCHW => seq![shape[0], shape[2], shape[3], shape[1]],
        Layout::CHW => seq![shape[1], shape[2], shape[0]],
        Layout::BFCHW => seq![shape[0], shape[1], shape[3], shape[4], shape[2]],
        _ => shape,
    }
}

/// How the samples of a tensor are denormalized.
#[derive(Clone, Copy, Debug, PartialEq, Eq)]
pub enum DenormalizeKind {
    /// No sample.
    Unchanged,
    /// Every sample.
    All,
    /// The samples whose flag is set.
    PerSample,
}

/// The denormalization of `sample_count` samples, as [`denormalize_plan`] decides it.
pub open spec fn spec_denormalize_kind(sample_count: usize, default_do_denormalize: bool, flags: Option<Seq<bool>>) -> Result<DenormalizeKind, ImageProcessorError> {
    match flags {
        None => Ok(if default_do_denormalize { DenormalizeKind::All } else { DenormalizeKind::Unchanged }),
        Some(f) => if f.len() != sample_count {
            Err(ImageProcessorError::InvalidDenormalizeFlags { expected: sample_count, actual: f.len() as usize })
        } else if forall|i: int| 0 <= i < f.len() ==> f[i] {
            Ok(DenormalizeKind::All)
        } else if forall|i: int| 0 <= i < f.len() ==> !f[i] {
            Ok(DenormalizeKind::Unchanged)
        } else {
            Ok(DenormalizeKind::PerSample)
        },
    }
}

/// The values after denormalization of kind `kind`: `mapped` holds every value
/// denormalized; per-sample selection takes sample `k / item_len` from `mapped` when its
/// flag is set.
pub open spec fn denormalized_values(kind: DenormalizeKind, values: Seq<u32>, mapped: Seq<u32>, flags: Seq<bool>) -> Seq<u32> {
    match kind {
        DenormalizeKind::Unchanged => values,
        DenormalizeKind::All => mapped,
        DenormalizeKind::PerSample => {
            let item_len = (values.len() / flags.len()) as int;
            Seq::new((item_len * flags.len()) as nat, |k: int| if flags[k / item_len] { mapped[k] } else { values[k] })
        },
    }
}

/// Whether `out` is the channel-last copy of `values` of `layout` and `shape` (the values
/// themselves when the layout is already channel-last).
pub open spec fn channel_last_is(out: TensorValues, values: Seq<u32>, shape: Seq<usize>, layout: Layout) -> bool {
    &&& spec_channel_last_layout(layout) matches Ok(l) && out.layout == l
    &&& out.shape@ == channel_last_shape(layout, shape)
    &&& match planar_dims(layout, shape) {
        Some((items, channels, plane)) => out.values@.len() == values.len() && forall|o: int| 0 <= o < out.values@.len()
            ==> #[trigger] out.values@[o] == values[channel_last_source(o, channels, plane)],
        None => out.values@ == values,
    }
}

/// Denormalizes a tensor as configured and requested, selecting per sample between its
/// values and `mapped` (every value denormalized).
fn denormalize_tensor(
    values: &[u32],
    shape: &[usize],
    layout: Layout,
    default_do_denormalize: bool,
    do_denormalize: Option<&[bool]>,
    mapped: &[u32],
) -> (r: Result<Vec<u32>, ImageProcessorError>)
    requires
        tensor_values_wf(values@, shape@, layout),
        mapped@.len() == values@.len(),
    ensures
        match spec_tensor_sample_count(layout, shape@) {
            Err(e) => r == Err::<Vec<u32>, ImageProcessorError>(e),
            Ok(n) => match spec_denormalize_kind(n, default_do_denormalize, match do_denormalize { Some(f) => Some(f@), None => None }) {
                Err(e) => r == Err::<Vec<u32>, ImageProcessorError>(e),
                Ok(kind) => r matches Ok(out) && out@ == denormalized_values(
                    kind, values@, mapped@, match do_denormalize { Some(f) => f@, None => Seq::empty() },
                ) && out@.len() == values@.len(),
            },
        },
{
    let n = match tensor_sample_count(layout, shape) {
        Ok(n) => n,
        Err(e) => return Err(e),
    };
    let plan = match denormalize_plan(n, default_do_denormalize, do_denormalize) {
        Ok(p) => p,
        Err(e) => return Err(e),
    };
    match plan {
        DenormalizePlan::Unchanged => Ok(copy_values(values)),
        DenormalizePlan::All => Ok(copy_values(mapped)),
        DenormalizePlan::PerSample(flags) => {
            let f = match do_denormalize {
                Some(f) => f,
                None => return Err(ImageProcessorError::IncompatibleBatchShapes),
            };
            proof {
                match layout {
                    Layout::NCHW | Layout::NHWC => {
                        assert(values@.len() == n * (shape@[1] * shape@[2] * shape@[3])) by (nonlinear_arith)
                            requires values@.len() == shape@[0] * shape@[1] * shape@[2] * shape@[3], n == shape@[0];
                        lemma_exact_division(values@.len() as int, n as int, shape@[1] * shape@[2] * shape@[3]);
                    },
                    Layout::BFCHW | Layout::BFHWC => {
                        assert(values@.len() == n * (shape@[1] * shape@[2] * shape@[3] * shape@[4])) by (nonlinear_arith)
                            requires values@.len() == shape@[0] * shape@[1] * shape@[2] * shape@[3] * shape@[4], n == shape@[0];
                        lemma_exact_division(values@.len() as int, n as int, shape@[1] * shape@[2] * shape@[3] * shape@[4]);
                    },
                    _ => {
                        lemma_exact_division(values@.len() as int, 1, values@.len() as int);
                    },
                }
            }
            select_per_sample(values, mapped, f)
        },
    }
}

/// A product divided by one of its positive factors gives the other, and multiplying
/// back restores the product.
proof fn lemma_exact_division(total: int, n: int, rest: int)
    requires
        n > 0,
        rest >= 0,
        total == n * rest,
    ensures
        total / n == rest,
        (total / n) * n == total,
{
    vstd::arithmetic::div_mod::lemma_div_multiples_vanish(rest, n);
    assert(n * rest == rest * n) by (nonlinear_arith);
}

fn copy_values(values: &[u32]) -> (r: Vec<u32>)
    ensures
        r@ == values@,
{
    let mut out: Vec<u32> = Vec::new();
    let mut i: usize = 0;
    while i < values.len()
        invariant
            i <= values@.len(),
            out@ == values@.take(i as int),
        decreases values@.len() - i,
    {
        out.push(values[i]);
        i = i + 1;
        assert(out@ =~= values@.take(i as int));
    }
    assert(values@.take(i as int) =~= values@);
    out
}

/// Returns the channel-last copy of a tensor of `layout` and `shape`.
pub fn channel_last_tensor(values: Vec<u32>, shape: &[usize], layout: Layout) -> (r: Result<TensorValues, ImageProcessorError>)
    requires
        tensor_values_wf(values@, shape@, layout),
    ensures
        match spec_channel_last_layout(layout) {
            Err(e) => r == Err::<TensorValues, ImageProcessorError>(e),
            Ok(_) => r matches Ok(out) && channel_last_is(out, values@, shape@, layout),
        },
{
    let target = match channel_last_layout(layout) {
        Ok(l) => l,
        Err(e) => return Err(e),
    };
    let count = values.len();
    proof {
        assert(count == values@.len());
        if shape@.len() >= 3 {
            assert(shape@[0] > 0 && shape@[1] > 0 && shape@[2] > 0);
        }
        if shape@.len() >= 4 {
            assert(shape@[3] > 0);
        }
        if shape@.len() >= 5 {
            assert(shape@[4] > 0);
        }
    }
    match layout {
        Layout::NCHW => {
            assert(shape@[0] * shape@[1] * shape@[2] * shape@[3] == shape@[0] * shape@[1] * (shape@[2] * shape@[3])) by (nonlinear_arith);
            assert(shape@[2] * shape@[3] <= values@.len() && shape@[2] * shape@[3] > 0) by (nonlinear_arith)
                requires values@.len() == shape@[0] * shape@[1] * shape@[2] * shape@[3], shape@[0] > 0, shape@[1] > 0,
                    shape@[2] > 0, shape@[3] > 0;
            let out = to_channel_last(values.as_slice(), shape[0], shape[1], shape[2] * shape[3]);
            let s = vec![shape[0], shape[2], shape[3], shape[1]];
            assert(s@ =~= channel_last_shape(layout, shape@));
            Ok(TensorValues { values: out, shape: s, layout: target })
        },
        Layout::CHW => {
            assert(shape@[0] * shape@[1] * shape@[2] == 1 * shape@[0] * (shape@[1] * shape@[2])) by (nonlinear_arith);
            assert(shape@[1] * shape@[2] <= values@.len() && shape@[1] * shape@[2] > 0) by (nonlinear_arith)
                requires values@.len() == shape@[0] * shape@[1] * shape@[2], shape@[0] > 0, shape@[1] > 0, shape@[2] > 0;
            let out = to_channel_last(values.as_slice(), 1, shape[0], shape[1] * shape[2]);
            let s = vec![shape[1], shape[2], shape[0]];
            assert(s@ =~= channel_last_shape(layout, shape@));
            Ok(TensorValues { values: out, shape: s, layout: target })
        },
        Layout::BFCHW => {
            assert(shape@[0] * shape@[1] * shape@[2] * shape@[3] * shape@[4]
                == (shape@[0] * shape@[1]) * shape@[2] * (shape@[3] * shape@[4])) by (nonlinear_arith);
            assert(shape@[3] * shape@[4] <= values@.len() && shape@[0] * shape@[1] <= values@.len()
                && shape@[3] * shape@[4] > 0) by (nonlinear_arith)
                requires values@.len() == shape@[0] * shape@[1] * shape@[2] * shape@[3] * shape@[4],
                    shape@[0] > 0, shape@[1] > 0, shape@[2] > 0, shape@[3] > 0, shape@[4] > 0;
            let out = to_channel_last(values.as_slice(), shape[0] * shape[1], shape[2], shape[3] * shape[4]);
            let s = vec![shape[0], shape[1], shape[3], shape[4], shape[2]];
            assert(s@ =~= channel_last_shape(layout, shape@));
            Ok(TensorValues { values: out, shape: s, layout: target })
        },
        _ => {
            let s = copy_shape(shape);
            Ok(TensorValues { values, shape: s, layout: target })
        },
    }
}

fn copy_shape(shape: &[usize]) -> (r: Vec<usize>)
    ensures
        r@ == shape@,
{
    let mut out: Vec<usize> = Vec::new();
    let mut i: usize = 0;
    while i < shape.len()
        invariant
            i <= shape@.len(),
            out@ == shape@.take(i as int),
        decreases shape@.len() - i,
    {
        out.push(shape[i]);
        i = i + 1;
        assert(out@ =~= shape@.take(i as int));
    }
    assert(shape@.take(i as int) =~= shape@);
    out
}

/// The flags of an optional per-sample denormalization request.
pub open spec fn requested_flags(do_denormalize: Option<&[bool]>) -> Option<Seq<bool>> {
    match do_denormalize {
        Some(f) => Some(f@),
        None => None,
    }
}

/// The flags of a request, empty when there is none.
pub open spec fn flag_values(do_denormalize: Option<&[bool]>) -> Seq<bool> {
    match do_denormalize {
        Some(f) => f@,
        None => Seq::empty(),
    }
}

/// The denormalized values of `tensor`, or the error of deciding its denormalization.
pub open spec fn spec_denormalized(
    tensor: TensorValues,
    default_do_denormalize: bool,
    do_denormalize: Option<&[bool]>,
    mapped: Seq<u32>,
) -> Result<Seq<u32>, ImageProcessorError> {
    match spec_tensor_sample_count(tensor.layout, tensor.shape@) {
        Err(e) => Err(e),
        Ok(n) => match spec_denormalize_kind(n, default_do_denormalize, requested_flags(do_denormalize)) {
            Err(e) => Err(e),
            Ok(kind) => Ok(denormalized_values(kind, tensor.values@, mapped, flag_values(do_denormalize))),
        },
    }
}

impl VaeImageProcessor {
    /// Postprocesses a decoded VAE tensor. `denormalized` holds every value of the tensor
    /// mapped from `[-1, 1]` to `[0, 1]`; the samples to denormalize (all of them when the
    /// configuration normalizes and no flags are given, or those whose flag is set) take
    /// their values from it. The latent output is the tensor unchanged, the tensor output
    /// is in the input layout, the array output is channel-last, and the frame output is
    /// the denormalized tensor in the input layout, from which frames are built.
    pub fn postprocess(
        &self,
        tensor: &TensorValues,
        output_type: VaeOutputType,
        do_denormalize: Option<&[bool]>,
        denormalized: &[u32],
    ) -> (r: Result<VaePostprocessOutput<TensorValues>, ImageProcessorError>)
        requires
            tensor_values_wf(tensor.values@, tensor.shape@, tensor.layout),
            denormalized@.len() == tensor.values@.len(),
        ensures
            output_type == VaeOutputType::Latent ==> (r matches Ok(VaePostprocessOutput::Tensor(t))
                && t.values@ == tensor.values@ && t.shape@ == tensor.shape@ && t.layout == tensor.layout),
            output_type != VaeOutputType::Latent ==> match spec_denormalized(
                *tensor, self.spec_config().do_normalize, do_denormalize, denormalized@,
            ) {
                Err(e) => r == Err::<VaePostprocessOutput<TensorValues>, ImageProcessorError>(e),
                Ok(d) => r matches Ok(VaePostprocessOutput::Tensor(t)) && if output_type == VaeOutputType::Array {
                    channel_last_is(t, d, tensor.shape@, tensor.layout)
                } else {
                    t.values@ == d && t.shape@ == tensor.shape@ && t.layout == tensor.layout
                },
            },
    {
        match output_type {
            VaeOutputType::Latent => {
                return Ok(VaePostprocessOutput::Tensor(TensorValues {
                    values: copy_values(tensor.values.as_slice()),
                    shape: copy_shape(tensor.shape.as_slice()),
                    layout: tensor.layout,
                }));
            },
            _ => {},
        }
        let values = match denormalize_tensor(
            tensor.values.as_slice(),
            tensor.shape.as_slice(),
            tensor.layout,
            self.config().do_normalize,
            do_denormalize,
            denormalized,
        ) {
            Ok(v) => v,
            Err(e) => return Err(e),
        };
        match output_type {
            VaeOutputType::Array => match channel_last_tensor(values, tensor.shape.as_slice(), tensor.layout) {
                Ok(t) => Ok(VaePostprocessOutput::Tensor(t)),
                Err(e) => Err(e),
            },
            _ => Ok(VaePostprocessOutput::Tensor(TensorValues {
                values,
                shape: copy_shape(tensor.shape.as_slice()),
                layout: tensor.layout,
            })),
        }
    }
}

impl VaeImageProcessorLdm3d {
    /// Postprocesses a decoded LDM3D tensor: denormalizes it as configured and requested
    /// (`denormalized` holds every value mapped from `[-1, 1]` to `[0, 1]`), brings it to
    /// channel-last order and returns it with its (batch, height, width, channels); each
    /// sample is then split into RGB and depth by [`ldm3d_split_sample`].
    pub fn postprocess(
        &self,
        tensor: &TensorValues,
        do_denormalize: Option<&[bool]>,
        denormalized: &[u32],
    ) -> (r: Result<(TensorValues, (usize, usize, usize, usize)), ImageProcessorError>)
        requires
            tensor_values_wf(tensor.values@, tensor.shape@, tensor.layout),
            denormalized@.len() == tensor.values@.len(),
        ensures
            match spec_denormalized(*tensor, self.spec_vae_processor().spec_config().do_normalize, do_denormalize, denormalized@) {
                Err(e) => r == Err::<(TensorValues, (usize, usize, usize, usize)), ImageProcessorError>(e),
                Ok(d) => match spec_channel_last_layout(tensor.layout) {
                    Err(e) => r == Err::<(TensorValues, (usize, usize, usize, usize)), ImageProcessorError>(e),
                    Ok(l) => match spec_ldm3d_output_dims(l, channel_last_shape(tensor.layout, tensor.shape@)) {
                        Err(e) => r == Err::<(TensorValues, (usize, usize, usize, usize)), ImageProcessorError>(e),
                        Ok(dims) => r matches Ok((t, rd)) && rd == dims && channel_last_is(t, d, tensor.shape@, tensor.layout),
                    },
                },
            },
    {
        let default = self.processor.config().do_normalize;
        let values = match denormalize_tensor(
            tensor.values.as_slice(),
            tensor.shape.as_slice(),
            tensor.layout,
            default,
            do_denormalize,
            denormalized,
        ) {
            Ok(v) => v,
            Err(e) => return Err(e),
        };
        let t = match channel_last_tensor(values, tensor.shape.as_slice(), tensor.layout) {
            Ok(t) => t,
            Err(e) => return Err(e),
        };
        match ldm3d_output_dims(t.layout, t.shape.as_slice()) {
            Ok(dims) => Ok((t, dims)),
            Err(e) => Err(e),
        }
    }
}

/// The values of depth map `i` once prepared for the batch: resized to the target when
/// the processor resizes, otherwise unchanged.
pub open spec fn prepared_depth_values(map: DepthMapU16, target: ImageSize, do_resize: bool, filter: ResizeFilter) -> Seq<u16> {
    if do_resize {
        spec_depth_resized(map, target, filter)
    } else {
        map.spec_data()
    }
}

/// The shape of an LDM3D depth batch of `count` maps of size `target`.
pub open spec fn ldm3d_depth_shape(count: nat, target: ImageSize, layout: ImageLayout) -> Seq<usize> {
    match layout {
        ImageLayout::ChannelsHeightWidth => seq![count as usize, 1usize, target.height, target.width],
        ImageLayout::HeightWidthChannels => seq![count as usize, target.height, target.width, 1usize],
    }
}

impl VaeImageProcessorLdm3d {
    /// Brings the depth maps of an LDM3D batch to `target` and stacks their 16-bit values
    /// map after map, with the batch shape of the output layout; the values are then
    /// scaled to `[0, 1]` (and normalized or binarized as configured).
    pub fn depth_batch(&self, depth: &[DepthMapU16], target: ImageSize) -> (r: Result<(Vec<u16>, Vec<usize>), ImageProcessorError>)
        ensures
            target.height * target.width > usize::MAX || depth@.len() * (target.height * target.width) > usize::MAX
                ==> r == Err::<(Vec<u16>, Vec<usize>), ImageProcessorError>(ImageProcessorError::Transform(TransformError::ImageSizeOverflow)),
            target.height * target.width <= usize::MAX && depth@.len() * (target.height * target.width) <= usize::MAX ==> {
                let c = self.spec_vae_processor().spec_config();
                let area = target.height * target.width;
                &&& (r is Ok <==> self.prepare_depth_maps_ok(depth@, target))
                &&& (r matches Ok((values, shape)) ==> {
                    &&& shape@ == ldm3d_depth_shape(depth@.len(), target, c.output_layout)
                    &&& values@.len() == depth@.len() * area
                    &&& forall|i: int| 0 <= i < depth@.len() ==> values@.subrange(i * area, (i + 1) * area)
                        == prepared_depth_values(#[trigger] depth@[i], target, c.do_resize, c.resample)
                })
            },
    {
        let area = match target.height.checked_mul(target.width) {
            Some(v) => v,
            None => return Err(ImageProcessorError::Transform(TransformError::ImageSizeOverflow)),
        };
        match depth.len().checked_mul(area) {
            Some(_) => {},
            None => return Err(ImageProcessorError::Transform(TransformError::ImageSizeOverflow)),
        }
        let maps = match self.prepare_depth_maps(depth, target) {
            Ok(m) => m,
            Err(e) => return Err(e),
        };
        let ghost c = self.spec_vae_processor().spec_config();
        let mut values: Vec<u16> = Vec::new();
        let mut i: usize = 0;
        while i < maps.len()
            invariant
                maps@.len() == depth@.len(),
                area == target.height * target.width,
                depth@.len() * area <= usize::MAX,
                forall|j: int| 0 <= j < maps@.len() ==> (#[trigger] maps@[j]).spec_size() == target,
                forall|j: int| 0 <= j < maps@.len() ==> (#[trigger] maps@[j]).spec_data()
                    == prepared_depth_values(depth@[j], target, c.do_resize, c.resample),
                i <= maps@.len(),
                values@.len() == i * area,
                forall|j: int| 0 <= j < i ==> values@.subrange(j * area, (j + 1) * area)
                    == prepared_depth_values(#[trigger] depth@[j], target, c.do_resize, c.resample),
            decreases maps@.len() - i,
        {
            let data = maps[i].data();
            let ghost before = values@;
            assert(data@.len() == area) by (nonlinear_arith)
                requires data@.len() == maps@[i as int].spec_width() * maps@[i as int].spec_height(),
                    maps@[i as int].spec_width() == target.width, maps@[i as int].spec_height() == target.height,
                    area == target.height * target.width;
            assert((i + 1) * area <= depth@.len() * area && i * area + area == (i + 1) * area) by (nonlinear_arith)
                requires i < depth@.len(), area >= 0;
            let mut k: usize = 0;
            while k < data.len()
                invariant
                    data@.len() == area,
                    values@.len() == i * area + k,
                    i * area + area <= usize::MAX,
                    values@.subrange(0, i * area) == before,
                    forall|t: int| 0 <= t < k ==> values@[i * area + t] == data@[t],
                    k <= data@.len(),
                decreases data@.len() - k,
            {
                values.push(data[k]);
                k = k + 1;
            }
            assert forall|j: int| 0 <= j < i + 1 implies values@.subrange(j * area, (j + 1) * area)
                == prepared_depth_values(#[trigger] depth@[j], target, c.do_resize, c.resample) by {
                if j < i {
                    assert((j + 1) * area <= i * area && j * area >= 0 && (j + 1) * area == j * area + area) by (nonlinear_arith)
                        requires j < i, j >= 0, area >= 0;
                    assert(values@.subrange(j * area, (j + 1) * area) =~= before.subrange(j * area, (j + 1) * area));
                } else {
                    assert(values@.subrange(j * area, (j + 1) * area) =~= data@);
                }
            }
            i = i + 1;
        }
        let shape = match self.processor.config().output_layout {
            ImageLayout::ChannelsHeightWidth => vec![depth.len(), 1, target.height, target.width],
            ImageLayout::HeightWidthChannels => vec![depth.len(), target.height, target.width, 1],
        };
        assert(shape@ =~= ldm3d_depth_shape(depth@.len(), target, c.output_layout));
        Ok((values, shape))
    }

    /// Whether every depth map of a batch can be brought to `target`.
    pub open spec fn prepare_depth_maps_ok(&self, depth: Seq<DepthMapU16>, target: ImageSize) -> bool {
        if self.spec_vae_processor().spec_config().do_resize {
            forall|i: int| 0 <= i < depth.len() ==> spec_depth_resize_error((#[trigger] depth[i]).spec_size(), target) is None
        } else {
            forall|i: int| 0 <= i < depth.len() ==> (#[trigger] depth[i]).spec_size() == target
        }
    }
}

impl VaeImageProcessorLdm3d {
    /// The depth half of LDM3D batch preprocessing: checks the RGB/depth batch, chooses the
    /// target from the first RGB image (see [`Self::batch_target_size`]) and stacks the
    /// depth maps brought to it (see [`Self::depth_batch`]); the RGB half is the VAE tensor
    /// stage at that target.
    pub fn preprocess_batch_depth(
        &self,
        rgb_sizes: &[ImageSize],
        depth: &[DepthMapU16],
        options: ImageProcessorOptions,
    ) -> (r: Result<(ImageSize, Vec<u16>, Vec<usize>), ImageProcessorError>)
        ensures
            match spec_ldm3d_batch_target(self.spec_vae_processor().spec_config(), rgb_sizes@, depth@.len(), options) {
                Err(e) => r == Err::<(ImageSize, Vec<u16>, Vec<usize>), ImageProcessorError>(e),
                Ok(target) => {
                    let c = self.spec_vae_processor().spec_config();
                    let area = target.height * target.width;
                    if area > usize::MAX || depth@.len() * area > usize::MAX {
                        r == Err::<(ImageSize, Vec<u16>, Vec<usize>), ImageProcessorError>(
                            ImageProcessorError::Transform(TransformError::ImageSizeOverflow),
                        )
                    } else {
                        &&& (r is Ok <==> self.prepare_depth_maps_ok(depth@, target))
                        &&& (r matches Ok((t, values, shape)) ==> {
                            &&& t == target
                            &&& shape@ == ldm3d_depth_shape(depth@.len(), target, c.output_layout)
                            &&& values@.len() == depth@.len() * area
                            &&& forall|i: int| 0 <= i < depth@.len() ==> values@.subrange(i * area, (i + 1) * area)
                                == prepared_depth_values(#[trigger] depth@[i], target, c.do_resize, c.resample)
                        })
                    }
                },
            },
    {
        let target = match self.batch_target_size(rgb_sizes, depth.len(), options) {
            Ok(t) => t,
            Err(e) => return Err(e),
        };
        match self.depth_batch(depth, target) {
            Ok((values, shape)) => Ok((target, values, shape)),
            Err(e) => Err(e),
        }
    }
}
} // verus!
