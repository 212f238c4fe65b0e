//! Encoder and classifier preprocessing settings per preset, the Swin2SR
//! restoration settings, and the integer geometry that their spatial stages use.

use vstd::prelude::*;

use crate::encoder_presets::EncoderImageProcessorPreset;
use crate::errors::{ImageProcessorError, MediaError, TensorError, TransformError};
use crate::families::{
    clip_image_mean, clip_image_std, imagenet_image_mean, imagenet_image_std, spec_clip_image_mean,
    spec_clip_image_std, spec_imagenet_image_mean, spec_imagenet_image_std,
    spec_standard_image_mean, spec_standard_image_std, standard_image_mean, standard_image_std,
    DEFAULT_RESCALE_FACTOR,
};
use crate::generic::{config_is, ImageProcessor, ImageProcessorConfig};
use crate::geometry::{spec_image_size_new, square_size, ImageSize};
use crate::indexing::{lemma_quotient_below, lemma_split};
use crate::layout::{batched_layout_for_image_layout, spec_batched_layout_for_image_layout, ImageLayout, Layout};
use crate::marigold::Padding;
use crate::media::ImageFrame;
use crate::settings::{
    resize_decision_for_parts, spec_channels, BatchExecution, ImageDecodeBackend, PixelFormat, ResizeDecision,
    ResizeFilter, ResizeMode, ResizeParity,
};
use crate::text::str_equal;

verus! {

/// `224 / 256` as an `f64` bit pattern.
pub const CROP_PERCENTAGE_224_OF_256: u64 = 0x3FEC_0000_0000_0000u64;

/// `0.9` as an `f64` bit pattern.
pub const CROP_PERCENTAGE_NINE_TENTHS: u64 = 0x3FEC_CCCC_CCCC_CCCDu64;

/// PPLCNet per-channel means (ImageNet means in BGR order), as `f32` bit patterns.
pub open spec fn spec_pplcnet_mean() -> Seq<u32> {
    seq![0x3ECF_DF3Bu32, 0x3EE9_78D5u32, 0x3EF8_51ECu32]
}

/// PPLCNet per-channel standard deviations, as `f32` bit patterns.
pub open spec fn spec_pplcnet_std() -> Seq<u32> {
    seq![0x3E66_6666u32, 0x3E65_6042u32, 0x3E6A_7EFAu32]
}

/// Returns the PPLCNet per-channel means.
pub fn pplcnet_mean() -> (r: Vec<u32>)
    ensures
        r@ == spec_pplcnet_mean(),
{
    let r = vec![0x3ECF_DF3Bu32, 0x3EE9_78D5u32, 0x3EF8_51ECu32];
    assert(r@ =~= spec_pplcnet_mean());
    r
}

/// Returns the PPLCNet per-channel standard deviations.
pub fn pplcnet_std() -> (r: Vec<u32>)
    ensures
        r@ == spec_pplcnet_std(),
{
    let r = vec![0x3E66_6666u32, 0x3E65_6042u32, 0x3E6A_7EFAu32];
    assert(r@ =~= spec_pplcnet_std());
    r
}

/// Spatial preprocessing shared by one or more encoder presets.
#[allow(inconsistent_fields)]
#[derive(Clone, Copy, Debug, PartialEq, Eq, Structural)]
pub enum EncoderGeometry {
    /// Warp directly to a fixed height and width.
    Fixed {
        /// Fixed output dimensions.
        size: ImageSize,
    },
    /// Warp to a fixed size and then center-crop, padding with zeros if needed.
    FixedThenCenterCrop {
        /// Intermediate fixed dimensions.
        size: ImageSize,
        /// Final center-crop dimensions.
        crop_size: ImageSize,
    },
    /// Preserve aspect ratio by resizing the shortest edge, then center-crop.
    ShortestEdgeThenCenterCrop {
        /// Intermediate shortest-edge target.
        shortest_edge: usize,
        /// Final center-crop dimensions.
        crop_size: ImageSize,
    },
    /// Scale a requested shortest edge before resizing, then center-crop.
    ScaledShortestEdgeThenCenterCrop {
        /// User-facing shortest-edge size.
        shortest_edge: usize,
        /// Integer numerator applied before shortest-edge resize.
        scale_numerator: usize,
        /// Integer denominator applied before shortest-edge resize.
        scale_denominator: usize,
        /// Final center-crop dimensions.
        crop_size: ImageSize,
    },
    /// Resize by a crop percentage and center-crop to a square output.
    CropPercentage {
        /// Final square edge.
        output_edge: usize,
        /// Fraction of the resized shortest edge retained by the crop, as an `f64`
        /// bit pattern.
        crop_percentage: u64,
        /// Edge at which preprocessing changes to a direct square warp.
        warp_at_or_above: Option<usize>,
    },
    /// Crop a fraction of the source minimum dimension before a fixed resize.
    PerceiverCropThenResize {
        /// Final fixed dimensions.
        size: ImageSize,
        /// Reference dimensions used to calculate the source-relative crop.
        crop_reference: ImageSize,
    },
    /// Paddle-style rounded shortest-edge resize with divisor alignment.
    PaddleShortestEdgeThenCenterCrop {
        /// Requested shortest edge.
        shortest_edge: usize,
        /// Dimension alignment divisor.
        size_divisor: usize,
        /// Final center-crop dimensions.
        crop_size: ImageSize,
    },
}

/// Rust-owned configuration for the shared encoder/classifier wrapper.
/// Floating-point settings hold IEEE-754 bit patterns.
#[derive(Clone, Debug, PartialEq, Eq)]
pub struct EncoderImageProcessorConfig {
    /// Upstream behavior preset.
    pub preset: EncoderImageProcessorPreset,
    /// Spatial preprocessing behavior.
    pub geometry: EncoderGeometry,
    /// Device-agnostic output axis order.
    pub output_layout: ImageLayout,
    /// Resize filter.
    pub resample: ResizeFilter,
    /// Resize parity implementation.
    pub resize_parity: ResizeParity,
    /// Decode backend used by path entrypoints.
    pub decode_backend: ImageDecodeBackend,
    /// Batch execution policy used by tensor conversion.
    pub batch_execution: BatchExecution,
    /// Optional decoded-frame pixel conversion.
    pub pixel_format: Option<PixelFormat>,
    /// Whether to rescale byte values.
    pub do_rescale: bool,
    /// Pixel rescale factor, as an `f32` bit pattern.
    pub rescale_factor: u32,
    /// Whether to apply channel normalization.
    pub do_normalize: bool,
    /// Per-channel normalization means, as `f32` bit patterns.
    pub image_mean: Vec<u32>,
    /// Per-channel normalization standard deviations, as `f32` bit patterns.
    pub image_std: Vec<u32>,
    /// Whether the upstream recipe rescales before resizing.
    pub rescale_before_resize: bool,
    /// Optional second per-channel standard-deviation division, as `f32` bit patterns.
    pub additional_std: Option<Vec<u32>>,
    /// Whether the final tensor reverses its first three channels.
    pub do_flip_channel_order: bool,
    /// Whether ImageGPT returns color-cluster indices instead of pixels.
    pub do_color_quantize: bool,
    /// ImageGPT color clusters in normalized RGB space, as `f32` bit patterns.
    pub color_clusters: Option<Vec<[u32; 3]>>,
}

/// The spatial geometry of a preset.
pub open spec fn spec_preset_geometry(p: EncoderImageProcessorPreset) -> EncoderGeometry {
    match p {
        EncoderImageProcessorPreset::Bit | EncoderImageProcessorPreset::ChineseClip =>
            EncoderGeometry::ShortestEdgeThenCenterCrop { shortest_edge: 224, crop_size: ImageSize { height: 224, width: 224 } },
        EncoderImageProcessorPreset::ConvNext =>
            EncoderGeometry::CropPercentage { output_edge: 384, crop_percentage: CROP_PERCENTAGE_224_OF_256, warp_at_or_above: Some(384) },
        EncoderImageProcessorPreset::DeiT =>
            EncoderGeometry::FixedThenCenterCrop { size: ImageSize { height: 256, width: 256 }, crop_size: ImageSize { height: 224, width: 224 } },
        EncoderImageProcessorPreset::EfficientNet => EncoderGeometry::Fixed { size: ImageSize { height: 346, width: 346 } },
        EncoderImageProcessorPreset::Flava =>
            EncoderGeometry::FixedThenCenterCrop { size: ImageSize { height: 224, width: 224 }, crop_size: ImageSize { height: 224, width: 224 } },
        EncoderImageProcessorPreset::ImageGpt => EncoderGeometry::Fixed { size: ImageSize { height: 256, width: 256 } },
        EncoderImageProcessorPreset::Levit => EncoderGeometry::ScaledShortestEdgeThenCenterCrop {
            shortest_edge: 224,
            scale_numerator: 256,
            scale_denominator: 224,
            crop_size: ImageSize { height: 224, width: 224 },
        },
        EncoderImageProcessorPreset::MobileNetV1 | EncoderImageProcessorPreset::MobileNetV2 =>
            EncoderGeometry::ShortestEdgeThenCenterCrop { shortest_edge: 256, crop_size: ImageSize { height: 224, width: 224 } },
        EncoderImageProcessorPreset::MobileVit =>
            EncoderGeometry::ShortestEdgeThenCenterCrop { shortest_edge: 224, crop_size: ImageSize { height: 256, width: 256 } },
        EncoderImageProcessorPreset::PpLcNet => EncoderGeometry::PaddleShortestEdgeThenCenterCrop {
            shortest_edge: 256,
            size_divisor: 1,
            crop_size: ImageSize { height: 224, width: 224 },
        },
        EncoderImageProcessorPreset::Perceiver => EncoderGeometry::PerceiverCropThenResize {
            size: ImageSize { height: 224, width: 224 },
            crop_reference: ImageSize { height: 256, width: 256 },
        },
        EncoderImageProcessorPreset::PoolFormer =>
            EncoderGeometry::CropPercentage { output_edge: 224, crop_percentage: CROP_PERCENTAGE_NINE_TENTHS, warp_at_or_above: None },
        EncoderImageProcessorPreset::TimmWrapper =>
            EncoderGeometry::CropPercentage { output_edge: 224, crop_percentage: CROP_PERCENTAGE_224_OF_256, warp_at_or_above: None },
        _ => EncoderGeometry::Fixed { size: ImageSize { height: 224, width: 224 } },
    }
}

/// The resize filter of a preset.
pub open spec fn spec_preset_resample(p: EncoderImageProcessorPreset) -> ResizeFilter {
    match p {
        EncoderImageProcessorPreset::Dinov3Vit
        | EncoderImageProcessorPreset::ImageGpt
        | EncoderImageProcessorPreset::MobileNetV1
        | EncoderImageProcessorPreset::MobileNetV2
        | EncoderImageProcessorPreset::PpLcNet => ResizeFilter::Bilinear,
        _ => ResizeFilter::Bicubic,
    }
}

/// The pixel-format conversion of a preset.
pub open spec fn spec_preset_pixel_format(p: EncoderImageProcessorPreset) -> Option<PixelFormat> {
    match p {
        EncoderImageProcessorPreset::Bit
        | EncoderImageProcessorPreset::ChineseClip
        | EncoderImageProcessorPreset::Siglip
        | EncoderImageProcessorPreset::TimmWrapper => Some(PixelFormat::Rgb8),
        _ => None,
    }
}

/// The normalization means of a preset.
pub open spec fn spec_preset_mean(p: EncoderImageProcessorPreset) -> Seq<u32> {
    match p {
        EncoderImageProcessorPreset::Bit | EncoderImageProcessorPreset::ChineseClip
        | EncoderImageProcessorPreset::Flava => spec_clip_image_mean(),
        EncoderImageProcessorPreset::Dinov3Vit | EncoderImageProcessorPreset::Levit
        | EncoderImageProcessorPreset::Perceiver | EncoderImageProcessorPreset::PoolFormer
        | EncoderImageProcessorPreset::Pvt | EncoderImageProcessorPreset::TimmWrapper => spec_imagenet_image_mean(),
        EncoderImageProcessorPreset::PpLcNet => spec_pplcnet_mean(),
        _ => spec_standard_image_mean(),
    }
}

/// The normalization standard deviations of a preset.
pub open spec fn spec_preset_std(p: EncoderImageProcessorPreset) -> Seq<u32> {
    match p {
        EncoderImageProcessorPreset::Bit | EncoderImageProcessorPreset::ChineseClip
        | EncoderImageProcessorPreset::Flava => spec_clip_image_std(),
        EncoderImageProcessorPreset::Dinov3Vit | EncoderImageProcessorPreset::Levit
        | EncoderImageProcessorPreset::Perceiver | EncoderImageProcessorPreset::PoolFormer
        | EncoderImageProcessorPreset::Pvt | EncoderImageProcessorPreset::TimmWrapper => spec_imagenet_image_std(),
        EncoderImageProcessorPreset::PpLcNet => spec_pplcnet_std(),
        _ => spec_standard_image_std(),
    }
}

/// The audited defaults of a preset: Bicubic Torchvision resize to 224 square,
/// rescale by `1 / 255`, standard normalization, channels-first output, changed per
/// preset as the upstream processor does.
pub open spec fn preset_defaults(p: EncoderImageProcessorPreset, c: EncoderImageProcessorConfig) -> bool {
    &&& c.preset == p
    &&& c.geometry == spec_preset_geometry(p)
    &&& c.output_layout == ImageLayout::ChannelsHeightWidth
    &&& c.resample == spec_preset_resample(p)
    &&& c.resize_parity == ResizeParity::Torchvision
    &&& c.decode_backend == ImageDecodeBackend::ImageCrate
    &&& c.batch_execution == BatchExecution::Sequential
    &&& c.pixel_format == spec_preset_pixel_format(p)
    &&& c.do_rescale
    &&& c.rescale_factor == DEFAULT_RESCALE_FACTOR
    &&& c.do_normalize == (p != EncoderImageProcessorPreset::MobileVit)
    &&& c.image_mean@ == spec_preset_mean(p)
    &&& c.image_std@ == spec_preset_std(p)
    &&& c.rescale_before_resize == (p == EncoderImageProcessorPreset::Dinov3Vit)
    &&& (if p == EncoderImageProcessorPreset::EfficientNet {
        c.additional_std matches Some(s) && s@ == spec_standard_image_std()
    } else {
        c.additional_std is None
    })
    &&& c.do_flip_channel_order == (p == EncoderImageProcessorPreset::MobileVit || p == EncoderImageProcessorPreset::PpLcNet)
    &&& c.do_color_quantize == (p == EncoderImageProcessorPreset::ImageGpt)
    &&& c.color_clusters is None
}

impl EncoderImageProcessorConfig {
    /// Creates the audited Transformers defaults for `preset`.
    pub fn for_preset(preset: EncoderImageProcessorPreset) -> (r: EncoderImageProcessorConfig)
        ensures
            preset_defaults(preset, r),
    {
        let mut config = EncoderImageProcessorConfig {
            preset,
            geometry: EncoderGeometry::Fixed { size: square_size(224) },
            output_layout: ImageLayout::ChannelsHeightWidth,
            resample: ResizeFilter::Bicubic,
            resize_parity: ResizeParity::Torchvision,
            decode_backend: ImageDecodeBackend::ImageCrate,
            batch_execution: BatchExecution::Sequential,
            pixel_format: None,
            do_rescale: true,
            rescale_factor: DEFAULT_RESCALE_FACTOR,
            do_normalize: true,
            image_mean: standard_image_mean(),
            image_std: standard_image_std(),
            rescale_before_resize: false,
            additional_std: None,
            do_flip_channel_order: false,
            do_color_quantize: false,
            color_clusters: None,
        };
        match preset {
            EncoderImageProcessorPreset::Beit => {},
            EncoderImageProcessorPreset::Bit | EncoderImageProcessorPreset::ChineseClip => {
                config.geometry = EncoderGeometry::ShortestEdgeThenCenterCrop { shortest_edge: 224, crop_size: square_size(224) };
                config.pixel_format = Some(PixelFormat::Rgb8);
                config.image_mean = clip_image_mean();
                config.image_std = clip_image_std();
            },
            EncoderImageProcessorPreset::ConvNext => {
                config.geometry = EncoderGeometry::CropPercentage {
                    output_edge: 384,
                    crop_percentage: CROP_PERCENTAGE_224_OF_256,
                    warp_at_or_above: Some(384),
                };
            },
            EncoderImageProcessorPreset::Dinov3Vit => {
                config.resample = ResizeFilter::Bilinear;
                config.image_mean = imagenet_image_mean();
                config.image_std = imagenet_image_std();
                config.rescale_before_resize = true;
            },
            EncoderImageProcessorPreset::DeiT => {
                config.geometry = EncoderGeometry::FixedThenCenterCrop { size: square_size(256), crop_size: square_size(224) };
            },
            EncoderImageProcessorPreset::EfficientNet => {
                config.geometry = EncoderGeometry::Fixed { size: square_size(346) };
                config.additional_std = Some(standard_image_std());
            },
            EncoderImageProcessorPreset::Flava => {
                config.geometry = EncoderGeometry::FixedThenCenterCrop { size: square_size(224), crop_size: square_size(224) };
                config.image_mean = clip_image_mean();
                config.image_std = clip_image_std();
            },
            EncoderImageProcessorPreset::ImageGpt => {
                config.geometry = EncoderGeometry::Fixed { size: square_size(256) };
                config.resample = ResizeFilter::Bilinear;
                config.do_color_quantize = true;
            },
            EncoderImageProcessorPreset::Levit => {
                config.geometry = EncoderGeometry::ScaledShortestEdgeThenCenterCrop {
                    shortest_edge: 224,
                    scale_numerator: 256,
                    scale_denominator: 224,
                    crop_size: square_size(224),
                };
                config.image_mean = imagenet_image_mean();
                config.image_std = imagenet_image_std();
            },
            EncoderImageProcessorPreset::MobileNetV1 | EncoderImageProcessorPreset::MobileNetV2 => {
                config.geometry = EncoderGeometry::ShortestEdgeThenCenterCrop { shortest_edge: 256, crop_size: square_size(224) };
                config.resample = ResizeFilter::Bilinear;
            },
            EncoderImageProcessorPreset::MobileVit => {
                config.geometry = EncoderGeometry::ShortestEdgeThenCenterCrop { shortest_edge: 224, crop_size: square_size(256) };
                config.do_normalize = false;
                config.do_flip_channel_order = true;
            },
            EncoderImageProcessorPreset::PpLcNet => {
                config.geometry = EncoderGeometry::PaddleShortestEdgeThenCenterCrop {
                    shortest_edge: 256,
                    size_divisor: 1,
                    crop_size: square_size(224),
                };
                config.resample = ResizeFilter::Bilinear;
                config.image_mean = pplcnet_mean();
                config.image_std = pplcnet_std();
                config.do_flip_channel_order = true;
            },
            EncoderImageProcessorPreset::Perceiver => {
                config.geometry = EncoderGeometry::PerceiverCropThenResize { size: square_size(224), crop_reference: square_size(256) };
                config.image_mean = imagenet_image_mean();
                config.image_std = imagenet_image_std();
            },
            EncoderImageProcessorPreset::PoolFormer => {
                config.geometry = EncoderGeometry::CropPercentage {
                    output_edge: 224,
                    crop_percentage: CROP_PERCENTAGE_NINE_TENTHS,
                    warp_at_or_above: None,
                };
                config.image_mean = imagenet_image_mean();
                config.image_std = imagenet_image_std();
            },
            EncoderImageProcessorPreset::Pvt => {
                config.image_mean = imagenet_image_mean();
                config.image_std = imagenet_image_std();
            },
            EncoderImageProcessorPreset::Siglip => {
                config.pixel_format = Some(PixelFormat::Rgb8);
            },
            EncoderImageProcessorPreset::TimmWrapper => {
                config.geometry = EncoderGeometry::CropPercentage {
                    output_edge: 224,
                    crop_percentage: CROP_PERCENTAGE_224_OF_256,
                    warp_at_or_above: None,
                };
                config.pixel_format = Some(PixelFormat::Rgb8);
                config.image_mean = imagenet_image_mean();
                config.image_std = imagenet_image_std();
            },
        }
        config
    }

    /// Creates audited defaults for a canonical class name or Pillow alias; an alias
    /// selects Pillow-compatible resizing.
    pub fn for_class_name(class_name: &str) -> (r: Option<EncoderImageProcessorConfig>)
        ensures
            match EncoderImageProcessorPreset::spec_from_class_name(class_name@) {
                None => r is None,
                Some(p) => r matches Some(c) && c.preset == p
                    && preset_defaults_except_parity(p, c)
                    && c.resize_parity == (if p.spec_class_aliases().map_values(|a: &'static str| a@).contains(class_name@) {
                        ResizeParity::Compatibility
                    } else {
                        ResizeParity::Torchvision
                    }),
            },
    {
        let preset = match EncoderImageProcessorPreset::from_class_name(class_name) {
            Some(p) => p,
            None => return None,
        };
        let mut config = Self::for_preset(preset);
        let aliases = preset.class_aliases();
        let mut i: usize = 0;
        let mut is_alias = false;
        while i < aliases.len()
            invariant
                aliases@ == preset.spec_class_aliases(),
                i <= aliases@.len(),
                is_alias == exists|j: int| 0 <= j < i && (#[trigger] aliases@[j])@ == class_name@,
            decreases aliases@.len() - i,
        {
            if str_equal(aliases[i], class_name) {
                is_alias = true;
            }
            i = i + 1;
        }
        proof {
            let views = preset.spec_class_aliases().map_values(|a: &'static str| a@);
            if is_alias {
                let j = choose|j: int| 0 <= j < aliases@.len() && (#[trigger] aliases@[j])@ == class_name@;
                assert(views[j] == class_name@);
            }
            if views.contains(class_name@) {
                let j = choose|j: int| 0 <= j < views.len() && views[j] == class_name@;
                assert(aliases@[j]@ == class_name@);
            }
        }
        if is_alias {
            config.resize_parity = ResizeParity::Compatibility;
        }
        Some(config)
    }

    /// Returns the output image axis order.
    pub fn output_image_layout(&self) -> (r: ImageLayout)
        ensures
            r == self.output_layout,
    {
        self.output_layout
    }

    /// Returns the resize decision implied by `resample` and `resize_parity`.
    pub fn resize_decision(&self) -> (r: ResizeDecision)
        ensures
            r == (ResizeDecision { filter: self.resample, parity: self.resize_parity }),
    {
        resize_decision_for_parts(self.resample, self.resize_parity)
    }

    /// Converts tensor-stage settings into the generic processor config; spatial
    /// preprocessing happens before the tensor stage, so it does not resize.
    pub fn image_processor_config(&self) -> (r: ImageProcessorConfig)
        ensures
            encoder_generic_config(*self, r),
    {
        let image_mean = self.image_mean.clone();
        let image_std = self.image_std.clone();
        assert(image_mean@ =~= self.image_mean@);
        assert(image_std@ =~= self.image_std@);
        ImageProcessorConfig {
            do_resize: false,
            height: None,
            width: None,
            resize_mode: ResizeMode::Default,
            resample: self.resample,
            resize_parity: self.resize_parity,
            decode_backend: self.decode_backend,
            batch_execution: self.batch_execution,
            pixel_format: self.pixel_format,
            do_rescale: self.do_rescale,
            rescale_factor: self.rescale_factor,
            do_normalize: self.do_normalize,
            image_mean,
            image_std,
            do_binarize: false,
            output_layout: batched_layout_for_image_layout(self.output_layout),
        }
    }
}

/// The generic config of an encoder preset: no resize in the tensor stage, and the
/// preset's filter, parity, conversion, rescale and normalization settings.
pub open spec fn encoder_generic_config(c: EncoderImageProcessorConfig, r: ImageProcessorConfig) -> bool {
    &&& r.do_resize == false
    &&& r.height is None
    &&& r.width is None
    &&& r.resize_mode == ResizeMode::Default
    &&& r.resample == c.resample
    &&& r.resize_parity == c.resize_parity
    &&& r.decode_backend == c.decode_backend
    &&& r.batch_execution == c.batch_execution
    &&& r.pixel_format == c.pixel_format
    &&& r.do_rescale == c.do_rescale
    &&& r.rescale_factor == c.rescale_factor
    &&& r.do_normalize == c.do_normalize
    &&& r.image_mean@ == c.image_mean@
    &&& r.image_std@ == c.image_std@
    &&& r.do_binarize == false
    &&& r.output_layout == spec_batched_layout_for_image_layout(c.output_layout)
}

/// The preset defaults, leaving the resize parity open.
pub open spec fn preset_defaults_except_parity(p: EncoderImageProcessorPreset, c: EncoderImageProcessorConfig) -> bool {
    preset_defaults(p, EncoderImageProcessorConfig { resize_parity: ResizeParity::Torchvision, ..c })
}

impl Default for EncoderImageProcessorConfig {
    fn default() -> (r: Self)
        ensures
            preset_defaults(EncoderImageProcessorPreset::Beit, r),
    {
        Self::for_preset(EncoderImageProcessorPreset::Beit)
    }
}

/// Errors returned by encoder-preset and restoration wrappers.
#[derive(Clone, Debug, PartialEq, Eq)]
pub enum PresetProcessorError {
    /// Generic image preprocessing failed.
    Image(ImageProcessorError),
    /// Decoded media loading failed.
    Media(MediaError),
    /// Spatial transformation failed.
    Transform(TransformError),
    /// Tensor construction failed.
    Tensor(TensorError),
    /// ImageGPT quantization was enabled without checkpoint color clusters.
    MissingColorClusters,
    /// A color cluster contained a non-finite component.
    NonFiniteColorCluster {
        /// Cluster index.
        cluster: usize,
        /// RGB component index.
        component: usize,
    },
    /// A crop percentage was zero, negative, or non-finite; given by its `f64` bit
    /// pattern.
    InvalidCropPercentage(u64),
    /// A configured divisor was zero.
    InvalidSizeDivisor,
    /// A class name did not identify a supported encoder preset or alias.
    UnsupportedClassName(String),
    /// Rescale-before-resize was requested for unsupported spatial geometry.
    UnsupportedRescaleBeforeResizeGeometry,
    /// Rescale-before-resize was requested without the Torchvision backend.
    UnsupportedRescaleBeforeResizeBackend,
}

/// Whether an `f32` bit pattern encodes a finite value (its exponent field is not
/// all ones).
pub open spec fn f32_bits_finite(bits: u32) -> bool {
    (bits / 0x80_0000) % 256 != 255
}

/// The first non-finite color-cluster component, as (cluster, component), scanning
/// clusters in order and components in order.
pub open spec fn first_non_finite_from(clusters: Seq<[u32; 3]>, start: int) -> Option<(usize, usize)>
    decreases clusters.len() - start,
{
    if start < 0 || start >= clusters.len() {
        None
    } else if !f32_bits_finite(clusters[start][0]) {
        Some((start as usize, 0usize))
    } else if !f32_bits_finite(clusters[start][1]) {
        Some((start as usize, 1usize))
    } else if !f32_bits_finite(clusters[start][2]) {
        Some((start as usize, 2usize))
    } else {
        first_non_finite_from(clusters, start + 1)
    }
}

/// The color-cluster check: every component must be finite.
pub open spec fn spec_color_cluster_check(clusters: Option<Vec<[u32; 3]>>) -> Result<(), PresetProcessorError> {
    match clusters {
        None => Ok(()),
        Some(c) => match first_non_finite_from(c@, 0) {
            None => Ok(()),
            Some((cluster, component)) => Err(PresetProcessorError::NonFiniteColorCluster { cluster, component }),
        },
    }
}

/// Checks that every color-cluster component is finite.
pub fn validate_color_clusters(clusters: &Option<Vec<[u32; 3]>>) -> (r: Result<(), PresetProcessorError>)
    ensures
        r == spec_color_cluster_check(*clusters),
{
    let list = match clusters {
        Some(c) => c,
        None => return Ok(()),
    };
    let mut i: usize = 0;
    while i < list.len()
        invariant
            i <= list@.len(),
            *clusters == Some(*list),
            first_non_finite_from(list@, 0) == first_non_finite_from(list@, i as int),
        decreases list@.len() - i,
    {
        let cluster = list[i];
        let mut k: usize = 0;
        while k < 3
            invariant
                k <= 3,
                i < list@.len(),
                *clusters == Some(*list),
                cluster == list@[i as int],
                first_non_finite_from(list@, 0) == first_non_finite_from(list@, i as int),
                forall|j: int| 0 <= j < k ==> f32_bits_finite(#[trigger] cluster[j]),
            decreases 3 - k,
        {
            if (cluster[k] / 0x80_0000) % 256 == 255 {
                assert(first_non_finite_from(list@, i as int) == Some((i, k)));
                return Err(PresetProcessorError::NonFiniteColorCluster { cluster: i, component: k });
            }
            k = k + 1;
        }
        i = i + 1;
    }
    Ok(())
}

/// Shared concrete processor for Transformers encoder/classifier presets.
#[derive(Clone, Debug)]
pub struct EncoderImageProcessor {
    config: EncoderImageProcessorConfig,
    tensor_processor: ImageProcessor,
}

impl EncoderImageProcessor {
    /// The configuration this processor was built from.
    pub closed spec fn spec_config(&self) -> EncoderImageProcessorConfig {
        self.config
    }

    /// The tensor stage this processor runs.
    pub closed spec fn spec_tensor_processor(&self) -> ImageProcessor {
        self.tensor_processor
    }

    /// Creates a processor; every color-cluster component must be finite.
    pub fn new(config: EncoderImageProcessorConfig) -> (r: Result<EncoderImageProcessor, PresetProcessorError>)
        ensures
            match spec_color_cluster_check(config.color_clusters) {
                Err(e) => r == Err::<EncoderImageProcessor, PresetProcessorError>(e),
                Ok(()) => r matches Ok(p) && p.spec_config() == config
                    && encoder_generic_config(config, p.spec_tensor_processor().spec_config()),
            },
    {
        match validate_color_clusters(&config.color_clusters) {
            Ok(()) => {},
            Err(e) => return Err(e),
        }
        let tensor_processor = ImageProcessor::from_config(config.image_processor_config());
        Ok(EncoderImageProcessor { config, tensor_processor })
    }

    /// Creates a processor from audited defaults for `preset`.
    pub fn for_preset(preset: EncoderImageProcessorPreset) -> (r: Result<EncoderImageProcessor, PresetProcessorError>)
        ensures
            r matches Ok(p) && preset_defaults(preset, p.spec_config()),
    {
        Self::new(EncoderImageProcessorConfig::for_preset(preset))
    }

    /// Creates a processor for a canonical Transformers class or Pillow alias.
    pub fn for_class_name(class_name: &str) -> (r: Result<EncoderImageProcessor, PresetProcessorError>)
        ensures
            match EncoderImageProcessorPreset::spec_from_class_name(class_name@) {
                None => r matches Err(PresetProcessorError::UnsupportedClassName(s)) && s@ == class_name@,
                Some(p) => r matches Ok(processor) && processor.spec_config().preset == p,
            },
    {
        match EncoderImageProcessorConfig::for_class_name(class_name) {
            Some(config) => Self::new(config),
            None => Err(PresetProcessorError::UnsupportedClassName(class_name.to_owned())),
        }
    }

    /// Returns this processor's configuration.
    pub fn config(&self) -> (r: &EncoderImageProcessorConfig)
        ensures
            *r == self.spec_config(),
    {
        &self.config
    }

    /// Returns the underlying tensor-stage image processor.
    pub fn image_processor(&self) -> (r: &ImageProcessor)
        ensures
            *r == self.spec_tensor_processor(),
    {
        &self.tensor_processor
    }
}

/// Rust-owned Swin2SR preprocessing configuration.
#[derive(Clone, Copy, Debug, PartialEq, Eq, Structural)]
pub struct Swin2SrImageProcessorConfig {
    /// Divisor used by symmetric bottom/right padding.
    pub size_divisor: usize,
    /// Device-agnostic output axis order.
    pub output_layout: ImageLayout,
    /// Decode backend used by path entrypoints.
    pub decode_backend: ImageDecodeBackend,
    /// Batch execution policy used by tensor conversion.
    pub batch_execution: BatchExecution,
    /// Whether to rescale byte values into the unit interval.
    pub do_rescale: bool,
    /// Pixel rescale factor, as an `f32` bit pattern.
    pub rescale_factor: u32,
}

impl Default for Swin2SrImageProcessorConfig {
    fn default() -> (r: Self)
        ensures
            r == (Swin2SrImageProcessorConfig {
                size_divisor: 8,
                output_layout: ImageLayout::ChannelsHeightWidth,
                decode_backend: ImageDecodeBackend::ImageCrate,
                batch_execution: BatchExecution::Sequential,
                do_rescale: true,
                rescale_factor: DEFAULT_RESCALE_FACTOR,
            }),
    {
        Swin2SrImageProcessorConfig {
            size_divisor: 8,
            output_layout: ImageLayout::ChannelsHeightWidth,
            decode_backend: ImageDecodeBackend::ImageCrate,
            batch_execution: BatchExecution::Sequential,
            do_rescale: true,
            rescale_factor: DEFAULT_RESCALE_FACTOR,
        }
    }
}

/// Stable recipe identifier of Swin2SR used by the processor catalog.
pub const SWIN2SR_RECIPE_ID: &'static str = "transformers.swin2sr_image_processor";

impl Swin2SrImageProcessorConfig {
    /// Converts tensor-stage settings into the generic processor config: no resize
    /// and no normalization, only the optional rescale.
    pub fn image_processor_config(&self) -> (r: ImageProcessorConfig)
        ensures
            config_is(r, false, None, None, ResizeMode::Default, ResizeFilter::Bicubic,
                ResizeParity::Compatibility, self.decode_backend, self.batch_execution, None,
                self.do_rescale, self.rescale_factor, false, Seq::empty(), Seq::empty(), false,
                spec_batched_layout_for_image_layout(self.output_layout)),
    {
        let image_mean: Vec<u32> = Vec::new();
        let image_std: Vec<u32> = Vec::new();
        assert(image_mean@ =~= Seq::<u32>::empty());
        assert(image_std@ =~= Seq::<u32>::empty());
        ImageProcessorConfig {
            do_resize: false,
            height: None,
            width: None,
            resize_mode: ResizeMode::Default,
            resample: ResizeFilter::Bicubic,
            resize_parity: ResizeParity::Compatibility,
            decode_backend: self.decode_backend,
            batch_execution: self.batch_execution,
            pixel_format: None,
            do_rescale: self.do_rescale,
            rescale_factor: self.rescale_factor,
            do_normalize: false,
            image_mean,
            image_std,
            do_binarize: false,
            output_layout: batched_layout_for_image_layout(self.output_layout),
        }
    }
}

/// Concrete image-restoration processor for Swin2SR.
#[derive(Clone, Debug)]
pub struct Swin2SrImageProcessor {
    config: Swin2SrImageProcessorConfig,
    tensor_processor: ImageProcessor,
}

impl Swin2SrImageProcessor {
    /// The configuration this processor was built from.
    pub closed spec fn spec_config(&self) -> Swin2SrImageProcessorConfig {
        self.config
    }

    /// The tensor stage this processor runs.
    pub closed spec fn spec_tensor_processor(&self) -> ImageProcessor {
        self.tensor_processor
    }

    /// Creates a Swin2SR processor; the size divisor must be non-zero.
    pub fn new(config: Swin2SrImageProcessorConfig) -> (r: Result<Swin2SrImageProcessor, PresetProcessorError>)
        ensures
            config.size_divisor == 0 ==> r == Err::<Swin2SrImageProcessor, PresetProcessorError>(PresetProcessorError::InvalidSizeDivisor),
            config.size_divisor > 0 ==> (r matches Ok(p) && p.spec_config() == config),
    {
        if config.size_divisor == 0 {
            return Err(PresetProcessorError::InvalidSizeDivisor);
        }
        let tensor_processor = ImageProcessor::from_config(config.image_processor_config());
        Ok(Swin2SrImageProcessor { config, tensor_processor })
    }

    /// Returns this processor's restoration configuration.
    pub fn config(&self) -> (r: &Swin2SrImageProcessorConfig)
        ensures
            *r == self.spec_config(),
    {
        &self.config
    }

    /// Returns the underlying tensor-stage image processor.
    pub fn image_processor(&self) -> (r: &ImageProcessor)
        ensures
            *r == self.spec_tensor_processor(),
    {
        &self.tensor_processor
    }
}

/// `value * multiplier / divisor`, computed exactly; the divisor must be non-zero
/// and the quotient must fit `usize`.
pub open spec fn spec_checked_ratio(value: usize, multiplier: usize, divisor: usize) -> Result<usize, TransformError> {
    if divisor == 0 {
        Err(TransformError::InvalidScaleFactor(divisor))
    } else if value * multiplier / (divisor as int) > usize::MAX {
        Err(TransformError::ImageSizeOverflow)
    } else {
        Ok((value * multiplier / (divisor as int)) as usize)
    }
}

/// Returns `value * multiplier / divisor`, computed without intermediate overflow.
pub fn checked_ratio(value: usize, multiplier: usize, divisor: usize) -> (r: Result<usize, TransformError>)
    ensures
        r == spec_checked_ratio(value, multiplier, divisor),
{
    if divisor == 0 {
        return Err(TransformError::InvalidScaleFactor(divisor));
    }
    assert((value as u128) * (multiplier as u128) <= 0xFFFF_FFFF_FFFF_FFFF_u128 * 0xFFFF_FFFF_FFFF_FFFF_u128) by (nonlinear_arith)
        requires
            value <= 0xFFFF_FFFF_FFFF_FFFF,
            multiplier <= 0xFFFF_FFFF_FFFF_FFFF,
    ;
    let product = value as u128 * multiplier as u128;
    let result = product / divisor as u128;
    if result > usize::MAX as u128 {
        return Err(TransformError::ImageSizeOverflow);
    }
    Ok(result as usize)
}

/// `value` rounded up to a multiple of `divisor`; the sum must fit `usize`.
pub open spec fn spec_align_up(value: usize, divisor: usize) -> Result<usize, TransformError> {
    if value + divisor - 1 > usize::MAX {
        Err(TransformError::ImageSizeOverflow)
    } else {
        Ok(((value + divisor - 1) / (divisor as int) * divisor) as usize)
    }
}

/// Returns `value` rounded up to a multiple of a non-zero `divisor`.
pub fn align_up(value: usize, divisor: usize) -> (r: Result<usize, TransformError>)
    requires
        divisor > 0,
    ensures
        r == spec_align_up(value, divisor),
{
    match value.checked_add(divisor - 1) {
        Some(sum) => {
            assert(sum / divisor * divisor <= sum) by (nonlinear_arith)
                requires
                    divisor > 0,
            ;
            Ok(sum / divisor * divisor)
        },
        None => Err(TransformError::ImageSizeOverflow),
    }
}

/// The shortest-edge target of a scaled geometry: `shortest_edge * numerator /
/// denominator`, with a non-zero denominator and no overflow in the product.
pub open spec fn spec_scaled_shortest_edge(shortest_edge: usize, numerator: usize, denominator: usize) -> Result<usize, TransformError> {
    if denominator == 0 {
        Err(TransformError::InvalidScaleFactor(denominator))
    } else if shortest_edge * numerator > usize::MAX {
        Err(TransformError::ImageSizeOverflow)
    } else {
        Ok((shortest_edge * numerator / (denominator as int)) as usize)
    }
}

/// Returns the shortest-edge target of a scaled geometry.
pub fn scaled_shortest_edge(shortest_edge: usize, numerator: usize, denominator: usize) -> (r: Result<usize, TransformError>)
    ensures
        r == spec_scaled_shortest_edge(shortest_edge, numerator, denominator),
{
    if denominator == 0 {
        return Err(TransformError::InvalidScaleFactor(denominator));
    }
    match shortest_edge.checked_mul(numerator) {
        Some(product) => Ok(product / denominator),
        None => Err(TransformError::ImageSizeOverflow),
    }
}

/// The crop of a Perceiver geometry for an image: the target size scaled by the
/// image's smaller dimension over the crop reference.
pub open spec fn spec_perceiver_crop_size(image: ImageSize, size: ImageSize, crop_reference: ImageSize) -> Result<ImageSize, TransformError> {
    let min_dimension = if image.height < image.width { image.height } else { image.width };
    match spec_checked_ratio(size.height, min_dimension, crop_reference.height) {
        Err(e) => Err(e),
        Ok(height) => match spec_checked_ratio(size.width, min_dimension, crop_reference.width) {
            Err(e) => Err(e),
            Ok(width) => spec_image_size_new(height, width),
        },
    }
}

/// Returns the crop of a Perceiver geometry for an image.
pub fn perceiver_crop_size(image: ImageSize, size: ImageSize, crop_reference: ImageSize) -> (r: Result<ImageSize, TransformError>)
    ensures
        r == spec_perceiver_crop_size(image, size, crop_reference),
{
    let min_dimension = if image.height < image.width { image.height } else { image.width };
    let height = match checked_ratio(size.height, min_dimension, crop_reference.height) {
        Ok(h) => h,
        Err(e) => return Err(e),
    };
    let width = match checked_ratio(size.width, min_dimension, crop_reference.width) {
        Ok(w) => w,
        Err(e) => return Err(e),
    };
    ImageSize::new(height, width)
}

/// The zero padding that lets an image be center-cropped to `crop_size`: the
/// missing rows and columns, split with the smaller half above and on the left;
/// `None` when the image already covers the crop.
pub open spec fn spec_center_crop_padding(image: ImageSize, crop_size: ImageSize) -> Option<Padding> {
    let missing_height = if crop_size.height > image.height { crop_size.height - image.height } else { 0 };
    let missing_width = if crop_size.width > image.width { crop_size.width - image.width } else { 0 };
    if missing_height == 0 && missing_width == 0 {
        None
    } else {
        Some(Padding {
            top: (missing_height / 2) as usize,
            right: (missing_width - missing_width / 2) as usize,
            bottom: (missing_height - missing_height / 2) as usize,
            left: (missing_width / 2) as usize,
        })
    }
}

/// Returns the zero padding that lets an image be center-cropped to `crop_size`.
pub fn center_crop_padding(image: ImageSize, crop_size: ImageSize) -> (r: Option<Padding>)
    ensures
        r == spec_center_crop_padding(image, crop_size),
{
    let missing_height = crop_size.height.saturating_sub(image.height);
    let missing_width = crop_size.width.saturating_sub(image.width);
    if missing_height == 0 && missing_width == 0 {
        None
    } else {
        let top = missing_height / 2;
        let left = missing_width / 2;
        Some(Padding { top, right: missing_width - left, bottom: missing_height - top, left })
    }
}

/// The source channel that a tensor-stage output channel reads: the first three
/// channels are reversed when the channel order is flipped.
pub open spec fn spec_stage_source_channel(flip_channel_order: bool, channel: usize) -> usize {
    if flip_channel_order && channel < 3 { (2 - channel) as usize } else { channel }
}

/// Returns the source channel that a tensor-stage output channel reads.
pub fn stage_source_channel(flip_channel_order: bool, channel: usize) -> (r: usize)
    ensures
        r == spec_stage_source_channel(flip_channel_order, channel),
{
    if flip_channel_order && channel < 3 {
        2 - channel
    } else {
        channel
    }
}

/// The batch, channel, height and width counts of a four-axis image tensor
/// shape in `NCHW` or `NHWC` order; any other layout or rank is unsupported.
pub open spec fn spec_image_batch_shape(shape: Seq<usize>, layout: Layout) -> Result<(usize, usize, usize, usize), PresetProcessorError> {
    if shape.len() == 4 && layout == Layout::NCHW {
        Ok((shape[0], shape[1], shape[2], shape[3]))
    } else if shape.len() == 4 && layout == Layout::NHWC {
        Ok((shape[0], shape[3], shape[1], shape[2]))
    } else {
        Err(PresetProcessorError::Image(ImageProcessorError::UnsupportedLayout(layout)))
    }
}

/// Reads the batch, channel, height and width counts of an image tensor shape.
pub fn image_batch_shape(shape: &[usize], layout: Layout) -> (r: Result<(usize, usize, usize, usize), PresetProcessorError>)
    ensures
        r == spec_image_batch_shape(shape@, layout),
{
    if shape.len() == 4 {
        match layout {
            Layout::NCHW => return Ok((shape[0], shape[1], shape[2], shape[3])),
            Layout::NHWC => return Ok((shape[0], shape[3], shape[1], shape[2])),
            _ => {},
        }
    }
    Err(PresetProcessorError::Image(ImageProcessorError::UnsupportedLayout(layout)))
}

/// Flat position of sample `sample`, channel `channel`, row `y`, column `x`
/// in a four-axis tensor of shape `shape` laid out as `layout`.
pub open spec fn spec_image_value_index(sample: int, channel: int, y: int, x: int, shape: Seq<usize>, layout: Layout) -> int {
    match layout {
        Layout::NCHW => ((sample * shape[1] + channel) * shape[2] + y) * shape[3] + x,
        Layout::NHWC => ((sample * shape[1] + y) * shape[2] + x) * shape[3] + channel,
        _ => 0,
    }
}

/// Computes the flat position of one value of a four-axis image tensor.
pub fn image_value_index(sample: usize, channel: usize, y: usize, x: usize, shape: &[usize], layout: Layout) -> (r: usize)
    requires
        layout == Layout::NCHW || layout == Layout::NHWC ==> (spec_image_batch_shape(shape@, layout) matches Ok(
            (b, c, h, w),
        ) && sample < b && channel < c && y < h && x < w && b * c * h * w <= usize::MAX),
    ensures
        r == spec_image_value_index(sample as int, channel as int, y as int, x as int, shape@, layout),
{
    match layout {
        Layout::NCHW => {
            proof {
                let (s1, s2, s3) = (shape@[1] as int, shape@[2] as int, shape@[3] as int);
                assert(0 <= sample * s1 + channel < shape@[0] * s1 && 0 <= (sample * s1 + channel) * s2 + y < shape@[0]
                    * s1 * s2 && 0 <= ((sample * s1 + channel) * s2 + y) * s3 + x < shape@[0] * s1 * s2 * s3
                    && sample * s1 <= sample * s1 + channel && (sample * s1 + channel) * s2 <= (sample * s1 + channel) * s2 + y
                    && ((sample * s1 + channel) * s2 + y) * s3 <= ((sample * s1 + channel) * s2 + y) * s3 + x
                    && shape@[0] * s1 <= shape@[0] * s1 * s2 * s3 && shape@[0] * s1 * s2 <= shape@[0] * s1 * s2 * s3) by (nonlinear_arith)
                    requires
                        sample < shape@[0],
                        channel < s1,
                        y < s2,
                        x < s3,
                        sample >= 0,
                        channel >= 0,
                        y >= 0,
                        x >= 0,
                ;
            }
            ((sample * shape[1] + channel) * shape[2] + y) * shape[3] + x
        },
        Layout::NHWC => {
            proof {
                let (s1, s2, s3) = (shape@[1] as int, shape@[2] as int, shape@[3] as int);
                assert(0 <= sample * s1 + y < shape@[0] * s1 && 0 <= (sample * s1 + y) * s2 + x < shape@[0] * s1 * s2
                    && 0 <= ((sample * s1 + y) * s2 + x) * s3 + channel < shape@[0] * s1 * s2 * s3
                    && sample * s1 <= sample * s1 + y && (sample * s1 + y) * s2 <= (sample * s1 + y) * s2 + x
                    && ((sample * s1 + y) * s2 + x) * s3 <= ((sample * s1 + y) * s2 + x) * s3 + channel
                    && shape@[0] * s1 <= shape@[0] * s1 * s2 * s3 && shape@[0] * s1 * s2 <= shape@[0] * s1 * s2 * s3
                    && shape@[0] * s1 * s2 * s3 == shape@[0] * s3 * s1 * s2) by (nonlinear_arith)
                    requires
                        sample < shape@[0],
                        y < s1,
                        x < s2,
                        channel < s3,
                        sample >= 0,
                        channel >= 0,
                        y >= 0,
                        x >= 0,
                ;
            }
            ((sample * shape[1] + y) * shape[2] + x) * shape[3] + channel
        },
        _ => 0,
    }
}

/// Index of the value that lands at `k` when the first and third channels of
/// a tensor of shape `shape` in `layout` are exchanged.
pub open spec fn channel_flip_source(k: int, shape: Seq<usize>, layout: Layout) -> int {
    match layout {
        Layout::NCHW => {
            let plane = shape[2] * shape[3];
            let channel = (k / plane) % (shape[1] as int);
            if channel == 0 {
                k + 2 * plane
            } else if channel == 2 {
                k - 2 * plane
            } else {
                k
            }
        },
        _ => {
            let channel = k % (shape[3] as int);
            if channel == 0 {
                k + 2
            } else if channel == 2 {
                k - 2
            } else {
                k
            }
        },
    }
}

/// Bounds of [`channel_flip_source`].
proof fn lemma_channel_flip_source(k: int, batch: usize, channels: usize, height: usize, width: usize, shape: Seq<usize>, layout: Layout)
    requires
        shape.len() == 4,
        layout == Layout::NCHW || layout == Layout::NHWC,
        spec_image_batch_shape(shape, layout) == Ok::<(usize, usize, usize, usize), PresetProcessorError>(
            (batch, channels, height, width),
        ),
        channels >= 3,
        height > 0,
        width > 0,
        0 <= k < batch * channels * height * width,
    ensures
        0 <= channel_flip_source(k, shape, layout) < batch * channels * height * width,
{
    if layout == Layout::NCHW {
        let plane = height * width;
        assert(plane > 0 && k < (batch * channels) * plane) by (nonlinear_arith)
            requires
                height > 0,
                width > 0,
                plane == height * width,
                k < batch * channels * height * width,
        ;
        lemma_split(k, plane);
        let p = k / plane;
        let m = k % plane;
        lemma_quotient_below(k, plane, batch * channels);
        lemma_split(p, channels as int);
        let s = p / (channels as int);
        let c = p % (channels as int);
        lemma_quotient_below(p, channels as int, batch as int);
        assert(plane == shape[2] * shape[3]);
        assert(0 <= channel_flip_source(k, shape, layout) < batch * channels * height * width) by (nonlinear_arith)
            requires
                k == plane * p + m,
                p == channels * s + c,
                0 <= m < plane,
                0 <= c < channels,
                0 <= s < batch,
                channels >= 3,
                channel_flip_source(k, shape, layout) == (if c == 0 {
                    k + 2 * plane
                } else if c == 2 {
                    k - 2 * plane
                } else {
                    k
                }),
                plane == height * width,
        ;
    } else {
        assert(k < (batch * height * width) * channels) by (nonlinear_arith)
            requires
                k < batch * channels * height * width,
        ;
        lemma_split(k, channels as int);
        lemma_quotient_below(k, channels as int, batch * height * width);
        let q = k / (channels as int);
        let c = k % (channels as int);
        assert(channels == shape[3]);
        assert(0 <= channel_flip_source(k, shape, layout) < batch * channels * height * width) by (nonlinear_arith)
            requires
                k == channels * q + c,
                0 <= c < channels,
                0 <= q < batch * height * width,
                channels >= 3,
                channel_flip_source(k, shape, layout) == (if c == 0 {
                    k + 2
                } else if c == 2 {
                    k - 2
                } else {
                    k
                }),
        ;
    }
}

/// Exchanges the first and third channels of an image tensor in `NCHW` or
/// `NHWC` order; a tensor of another layout, or with fewer than three
/// channels, is left unchanged and rejected.
pub fn flip_first_three_channels<T: Copy>(values: &mut Vec<T>, shape: &[usize], layout: Layout) -> (r: Result<(), PresetProcessorError>)
    requires
        spec_image_batch_shape(shape@, layout) matches Ok((b, c, h, w)) ==> old(values)@.len() == b * c * h * w,
    ensures
        match spec_image_batch_shape(shape@, layout) {
            Err(e) => r == Err::<(), PresetProcessorError>(e) && final(values)@ == old(values)@,
            Ok((batch, channels, height, width)) => if channels < 3 {
                r == Err::<(), PresetProcessorError>(PresetProcessorError::Image(
                    ImageProcessorError::InvalidNormalizationStats { channels: 3, actual: channels },
                )) && final(values)@ == old(values)@
            } else {
                &&& r is Ok
                &&& final(values)@.len() == old(values)@.len()
                &&& forall|k: int|
                    0 <= k < old(values)@.len() ==> #[trigger] final(values)@[k] == old(values)@[channel_flip_source(
                        k,
                        shape@,
                        layout,
                    )]
            },
        },
{
    let (batch, channels, height, width) = match image_batch_shape(shape, layout) {
        Ok(dims) => dims,
        Err(e) => return Err(e),
    };
    if channels < 3 {
        return Err(PresetProcessorError::Image(ImageProcessorError::InvalidNormalizationStats { channels: 3, actual: channels }));
    }
    let n = values.len();
    if height == 0 || width == 0 || batch == 0 {
        proof {
            assert(batch * channels * height * width == 0) by (nonlinear_arith)
                requires
                    height == 0 || width == 0 || batch == 0,
            ;
            assert forall|k: int| 0 <= k < old(values)@.len() implies final(values)@[k] == old(values)@[channel_flip_source(k, shape@, layout)] by {}
        }
        return Ok(());
    }
    proof {
        assert(height * width <= batch * channels * height * width && height * width > 0) by (nonlinear_arith)
            requires
                batch >= 1,
                channels >= 3,
                height >= 1,
                width >= 1,
        ;
    }
    let plane = height * width;
    let mut flipped: Vec<T> = Vec::new();
    let mut k: usize = 0;
    while k < n
        invariant
            flipped@.len() == k,
            k <= n,
            n == values@.len(),
            n == batch * channels * height * width,
            values@ == old(values)@,
            plane == height * width,
            plane > 0,
            channels >= 3,
            height > 0,
            width > 0,
            shape@.len() == 4,
            layout == Layout::NCHW || layout == Layout::NHWC,
            spec_image_batch_shape(shape@, layout) == Ok::<(usize, usize, usize, usize), PresetProcessorError>(
                (batch, channels, height, width),
            ),
            forall|i: int|
                0 <= i < k ==> #[trigger] flipped@[i] == values@[channel_flip_source(i, shape@, layout)],
        decreases n - k,
    {
        proof {
            lemma_channel_flip_source(k as int, batch, channels, height, width, shape@, layout);
        }
        let source = match layout {
            Layout::NCHW => {
                let channel = (k / plane) % channels;
                if channel == 0 {
                    k + 2 * plane
                } else if channel == 2 {
                    k - 2 * plane
                } else {
                    k
                }
            },
            _ => {
                let channel = k % channels;
                if channel == 0 {
                    k + 2
                } else if channel == 2 {
                    k - 2
                } else {
                    k
                }
            },
        };
        flipped.push(values[source]);
        k = k + 1;
    }
    *values = flipped;
    Ok(())
}

/// Position in a frame's interleaved samples of value `k` of its tensor-stage
/// bytes: channel-first output enumerates channels, then pixels; channel-last
/// output enumerates pixels, then channels; each output channel reads the
/// source channel that [`stage_source_channel`] gives.
pub open spec fn frame_stage_source(k: int, channels: int, pixels: int, layout: ImageLayout, flip_channel_order: bool) -> int {
    let (pixel, channel) = match layout {
        ImageLayout::ChannelsHeightWidth => (k % pixels, k / pixels),
        ImageLayout::HeightWidthChannels => (k / channels, k % channels),
    };
    pixel * channels + spec_stage_source_channel(flip_channel_order, channel as usize)
}

/// Bounds of [`frame_stage_source`].
proof fn lemma_frame_stage_source(k: int, channels: int, pixels: int, layout: ImageLayout, flip_channel_order: bool)
    requires
        channels > 0,
        pixels > 0,
        0 <= k < pixels * channels,
        flip_channel_order ==> channels >= 3,
    ensures
        0 <= k % pixels < pixels,
        0 <= k / pixels < channels,
        0 <= k / channels < pixels,
        0 <= k % channels < channels,
        0 <= frame_stage_source(k, channels, pixels, layout, flip_channel_order) < pixels * channels,
{
    lemma_split(k, pixels);
    assert(k < channels * pixels) by (nonlinear_arith)
        requires
            k < pixels * channels,
    ;
    lemma_quotient_below(k, pixels, channels);
    lemma_split(k, channels);
    lemma_quotient_below(k, channels, pixels);
    let (pixel, channel) = match layout {
        ImageLayout::ChannelsHeightWidth => (k % pixels, k / pixels),
        ImageLayout::HeightWidthChannels => (k / channels, k % channels),
    };
    let source = spec_stage_source_channel(flip_channel_order, channel as usize);
    assert(0 <= source < channels);
    assert(0 <= pixel * channels + source < pixels * channels) by (nonlinear_arith)
        requires
            0 <= pixel < pixels,
            0 <= source < channels,
    ;
}

/// Reorders a frame's interleaved samples into tensor-stage order: planar
/// for channel-first output, interleaved for channel-last output, with the
/// first three channels reversed when `flip_channel_order` is set.
pub fn frame_stage_bytes(frame: &ImageFrame, layout: ImageLayout, flip_channel_order: bool) -> (r: Vec<u8>)
    requires
        frame.spec_data().len() == frame.spec_width() * frame.spec_height() * spec_channels(frame.spec_pixel_format()),
        flip_channel_order ==> spec_channels(frame.spec_pixel_format()) >= 3,
    ensures
        r@.len() == frame.spec_data().len(),
        forall|k: int|
            0 <= k < r@.len() ==> #[trigger] r@[k] == frame.spec_data()[frame_stage_source(
                k,
                spec_channels(frame.spec_pixel_format()) as int,
                frame.spec_width() * frame.spec_height(),
                layout,
                flip_channel_order,
            )],
{
    let data = frame.data();
    let channels = frame.pixel_format().channels();
    let n = data.len();
    if n == 0 {
        return Vec::new();
    }
    proof {
        assert(frame.spec_width() * frame.spec_height() > 0 && frame.spec_width() * frame.spec_height() <= n) by (nonlinear_arith)
            requires
                n == frame.spec_width() * frame.spec_height() * channels,
                n > 0,
                channels >= 1,
        ;
    }
    let pixels = frame.width() * frame.height();
    let mut bytes: Vec<u8> = Vec::new();
    let mut k: usize = 0;
    while k < n
        invariant
            bytes@.len() == k,
            k <= n,
            n == data@.len(),
            data@ == frame.spec_data(),
            n == pixels * channels,
            pixels == frame.spec_width() * frame.spec_height(),
            pixels > 0,
            channels == spec_channels(frame.spec_pixel_format()),
            channels >= 1,
            flip_channel_order ==> channels >= 3,
            forall|i: int|
                0 <= i < k ==> #[trigger] bytes@[i] == data@[frame_stage_source(
                    i,
                    channels as int,
                    pixels as int,
                    layout,
                    flip_channel_order,
                )],
        decreases n - k,
    {
        proof {
            lemma_frame_stage_source(k as int, channels as int, pixels as int, layout, flip_channel_order);
        }
        let (pixel, channel) = match layout {
            ImageLayout::ChannelsHeightWidth => (k % pixels, k / pixels),
            ImageLayout::HeightWidthChannels => (k / channels, k % channels),
        };
        let source = stage_source_channel(flip_channel_order, channel);
        proof {
            assert(0 <= pixel * channels <= pixel * channels + source < pixels * channels) by (nonlinear_arith)
                requires
                    0 <= pixel < pixels,
                    0 <= source < channels,
            ;
        }
        bytes.push(data[pixel * channels + source]);
        k = k + 1;
    }
    bytes
}


/// How an encoder geometry resizes an image.
#[derive(Clone, Copy, Debug, PartialEq, Eq)]
pub enum EncoderResizeStep {
    /// Warp to exactly these dimensions.
    Exact(ImageSize),
    /// Resize so the shorter side has this length, keeping the aspect ratio.
    ShortestEdge(usize),
    /// Resize the shorter side to `output_edge / crop_percentage`, truncated; the
    /// percentage is an `f64` bit pattern of a finite positive value.
    ShortestEdgeOverCropPercentage {
        /// Final square edge.
        output_edge: usize,
        /// Crop percentage as an `f64` bit pattern.
        crop_percentage: u64,
    },
    /// Scale both sides so the shorter one becomes `shortest_edge`, round each to the
    /// nearest integer and align it up to a multiple of `size_divisor` (non-zero).
    PaddleAligned {
        /// Requested shortest edge.
        shortest_edge: usize,
        /// Alignment divisor.
        size_divisor: usize,
    },
}

/// The steps an encoder geometry applies to one image: an optional center crop before
/// resizing, the resize, and an optional zero-padded center crop after it.
#[derive(Clone, Copy, Debug, PartialEq, Eq)]
pub struct EncoderGeometryPlan {
    /// Center crop taken from the source before resizing.
    pub crop_before_resize: Option<ImageSize>,
    /// The resize step.
    pub resize: EncoderResizeStep,
    /// Center crop, padded with zeros where needed, taken after resizing.
    pub crop_after_resize: Option<ImageSize>,
}

/// Whether an `f64` bit pattern encodes a finite value greater than zero.
pub open spec fn f64_bits_finite_positive(bits: u64) -> bool {
    0 < bits < 0x7FF0_0000_0000_0000
}

/// The plan of `geometry` for an image of size `image`, or the error the geometry
/// reports: a zero scale denominator or an overflowing scaled edge, a crop percentage
/// that is not finite and positive, a Perceiver crop that overflows or is empty, or a
/// zero size divisor.
pub open spec fn spec_encoder_geometry_plan(geometry: EncoderGeometry, image: ImageSize) -> Result<EncoderGeometryPlan, PresetProcessorError> {
    match geometry {
        EncoderGeometry::Fixed { size } => Ok(EncoderGeometryPlan {
            crop_before_resize: None,
            resize: EncoderResizeStep::Exact(size),
            crop_after_resize: None,
        }),
        EncoderGeometry::FixedThenCenterCrop { size, crop_size } => Ok(EncoderGeometryPlan {
            crop_before_resize: None,
            resize: EncoderResizeStep::Exact(size),
            crop_after_resize: Some(crop_size),
        }),
        EncoderGeometry::ShortestEdgeThenCenterCrop { shortest_edge, crop_size } => Ok(EncoderGeometryPlan {
            crop_before_resize: None,
            resize: EncoderResizeStep::ShortestEdge(shortest_edge),
            crop_after_resize: Some(crop_size),
        }),
        EncoderGeometry::ScaledShortestEdgeThenCenterCrop { shortest_edge, scale_numerator, scale_denominator, crop_size } => {
            match spec_scaled_shortest_edge(shortest_edge, scale_numerator, scale_denominator) {
                Err(e) => Err(PresetProcessorError::Transform(e)),
                Ok(edge) => Ok(EncoderGeometryPlan {
                    crop_before_resize: None,
                    resize: EncoderResizeStep::ShortestEdge(edge),
                    crop_after_resize: Some(crop_size),
                }),
            }
        },
        EncoderGeometry::CropPercentage { output_edge, crop_percentage, warp_at_or_above } => {
            if !f64_bits_finite_positive(crop_percentage) {
                Err(PresetProcessorError::InvalidCropPercentage(crop_percentage))
            } else if warp_at_or_above matches Some(threshold) && output_edge >= threshold {
                Ok(EncoderGeometryPlan {
                    crop_before_resize: None,
                    resize: EncoderResizeStep::Exact(ImageSize { height: output_edge, width: output_edge }),
                    crop_after_resize: None,
                })
            } else {
                Ok(EncoderGeometryPlan {
                    crop_before_resize: None,
                    resize: EncoderResizeStep::ShortestEdgeOverCropPercentage { output_edge, crop_percentage },
                    crop_after_resize: Some(ImageSize { height: output_edge, width: output_edge }),
                })
            }
        },
        EncoderGeometry::PerceiverCropThenResize { size, crop_reference } => {
            match spec_perceiver_crop_size(image, size, crop_reference) {
                Err(e) => Err(PresetProcessorError::Transform(e)),
                Ok(crop) => Ok(EncoderGeometryPlan {
                    crop_before_resize: Some(crop),
                    resize: EncoderResizeStep::Exact(size),
                    crop_after_resize: None,
                }),
            }
        },
        EncoderGeometry::PaddleShortestEdgeThenCenterCrop { shortest_edge, size_divisor, crop_size } => {
            if size_divisor == 0 {
                Err(PresetProcessorError::InvalidSizeDivisor)
            } else {
                Ok(EncoderGeometryPlan {
                    crop_before_resize: None,
                    resize: EncoderResizeStep::PaddleAligned { shortest_edge, size_divisor },
                    crop_after_resize: Some(crop_size),
                })
            }
        },
    }
}

/// Returns the steps `geometry` applies to an image of size `image`.
pub fn encoder_geometry_plan(geometry: EncoderGeometry, image: ImageSize) -> (r: Result<EncoderGeometryPlan, PresetProcessorError>)
    ensures
        r == spec_encoder_geometry_plan(geometry, image),
{
    match geometry {
        EncoderGeometry::Fixed { size } => Ok(EncoderGeometryPlan {
            crop_before_resize: None,
            resize: EncoderResizeStep::Exact(size),
            crop_after_resize: None,
        }),
        EncoderGeometry::FixedThenCenterCrop { size, crop_size } => Ok(EncoderGeometryPlan {
            crop_before_resize: None,
            resize: EncoderResizeStep::Exact(size),
            crop_after_resize: Some(crop_size),
        }),
        EncoderGeometry::ShortestEdgeThenCenterCrop { shortest_edge, crop_size } => Ok(EncoderGeometryPlan {
            crop_before_resize: None,
            resize: EncoderResizeStep::ShortestEdge(shortest_edge),
            crop_after_resize: Some(crop_size),
        }),
        EncoderGeometry::ScaledShortestEdgeThenCenterCrop { shortest_edge, scale_numerator, scale_denominator, crop_size } => {
            match scaled_shortest_edge(shortest_edge, scale_numerator, scale_denominator) {
                Err(e) => Err(PresetProcessorError::Transform(e)),
                Ok(edge) => Ok(EncoderGeometryPlan {
                    crop_before_resize: None,
                    resize: EncoderResizeStep::ShortestEdge(edge),
                    crop_after_resize: Some(crop_size),
                }),
            }
        },
        EncoderGeometry::CropPercentage { output_edge, crop_percentage, warp_at_or_above } => {
            if crop_percentage == 0 || crop_percentage >= 0x7FF0_0000_0000_0000u64 {
                return Err(PresetProcessorError::InvalidCropPercentage(crop_percentage));
            }
            let warp = match warp_at_or_above {
                Some(threshold) => output_edge >= threshold,
                None => false,
            };
            let output = square_size(output_edge);
            if warp {
                Ok(EncoderGeometryPlan {
                    crop_before_resize: None,
                    resize: EncoderResizeStep::Exact(output),
                    crop_after_resize: None,
                })
            } else {
                Ok(EncoderGeometryPlan {
                    crop_before_resize: None,
                    resize: EncoderResizeStep::ShortestEdgeOverCropPercentage { output_edge, crop_percentage },
                    crop_after_resize: Some(output),
                })
            }
        },
        EncoderGeometry::PerceiverCropThenResize { size, crop_reference } => {
            match perceiver_crop_size(image, size, crop_reference) {
                Err(e) => Err(PresetProcessorError::Transform(e)),
                Ok(crop) => Ok(EncoderGeometryPlan {
                    crop_before_resize: Some(crop),
                    resize: EncoderResizeStep::Exact(size),
                    crop_after_resize: None,
                }),
            }
        },
        EncoderGeometry::PaddleShortestEdgeThenCenterCrop { shortest_edge, size_divisor, crop_size } => {
            if size_divisor == 0 {
                Err(PresetProcessorError::InvalidSizeDivisor)
            } else {
                Ok(EncoderGeometryPlan {
                    crop_before_resize: None,
                    resize: EncoderResizeStep::PaddleAligned { shortest_edge, size_divisor },
                    crop_after_resize: Some(crop_size),
                })
            }
        },
    }
}

/// The size of the image a plan hands on: its final crop, or else the exact size it
/// warps to.
pub open spec fn plan_output_size(plan: EncoderGeometryPlan) -> Option<ImageSize> {
    match plan.crop_after_resize {
        Some(crop) => Some(crop),
        None => match plan.resize {
            EncoderResizeStep::Exact(size) => Some(size),
            _ => None,
        },
    }
}

/// Every preset outputs a square image: 384 pixels a side for ConvNeXT, 346 for
/// EfficientNet, 256 for ImageGPT and MobileViT, and 224 for every other preset; each
/// preset but Perceiver plans every image, and Perceiver plans every image it accepts to
/// the same size. The resize before the final crop is a shorter side of 224 for BiT,
/// Chinese-CLIP and MobileViT and of 256 for LeViT and the MobileNets; a warp to 384
/// square for ConvNeXT, 256 for DeiT and ImageGPT, 346 for EfficientNet and 224 for the
/// remaining fixed presets; the crop-percentage resize for PoolFormer and timm; and the
/// aligned shorter side of 256 for PP-LCNet.
pub proof fn encoder_preset_output_sizes(p: EncoderImageProcessorPreset, c: EncoderImageProcessorConfig, image: ImageSize)
    requires
        preset_defaults(p, c),
    ensures
        p != EncoderImageProcessorPreset::Perceiver ==> spec_encoder_geometry_plan(c.geometry, image) is Ok,
        spec_encoder_geometry_plan(c.geometry, image) matches Ok(plan) ==> plan_output_size(plan) == Some(
            ({
                let edge: usize = match p {
                    EncoderImageProcessorPreset::ConvNext => 384,
                    EncoderImageProcessorPreset::EfficientNet => 346,
                    EncoderImageProcessorPreset::ImageGpt | EncoderImageProcessorPreset::MobileVit => 256,
                    _ => 224,
                };
                ImageSize { height: edge, width: edge }
            }),
        ),
        spec_encoder_geometry_plan(c.geometry, image) matches Ok(plan) ==> plan.resize == match p {
            EncoderImageProcessorPreset::Bit | EncoderImageProcessorPreset::ChineseClip
            | EncoderImageProcessorPreset::MobileVit => EncoderResizeStep::ShortestEdge(224),
            EncoderImageProcessorPreset::Levit | EncoderImageProcessorPreset::MobileNetV1
            | EncoderImageProcessorPreset::MobileNetV2 => EncoderResizeStep::ShortestEdge(256),
            EncoderImageProcessorPreset::ConvNext => EncoderResizeStep::Exact(ImageSize { height: 384, width: 384 }),
            EncoderImageProcessorPreset::DeiT | EncoderImageProcessorPreset::ImageGpt =>
                EncoderResizeStep::Exact(ImageSize { height: 256, width: 256 }),
            EncoderImageProcessorPreset::EfficientNet => EncoderResizeStep::Exact(ImageSize { height: 346, width: 346 }),
            EncoderImageProcessorPreset::PoolFormer => EncoderResizeStep::ShortestEdgeOverCropPercentage {
                output_edge: 224,
                crop_percentage: 0x3FEC_CCCC_CCCC_CCCDu64,
            },
            EncoderImageProcessorPreset::TimmWrapper => EncoderResizeStep::ShortestEdgeOverCropPercentage {
                output_edge: 224,
                crop_percentage: 0x3FEC_0000_0000_0000u64,
            },
            EncoderImageProcessorPreset::PpLcNet => EncoderResizeStep::PaddleAligned { shortest_edge: 256, size_divisor: 1 },
            _ => EncoderResizeStep::Exact(ImageSize { height: 224, width: 224 }),
        },
{
}

/// Both MobileNet presets resize the shorter side to 256 pixels with a bilinear filter
/// and then center-crop to 224 by 224, for every image.
pub proof fn mobilenet_presets_resize_to_256_then_crop_224(
    p: EncoderImageProcessorPreset,
    c: EncoderImageProcessorConfig,
    image: ImageSize,
)
    requires
        p == EncoderImageProcessorPreset::MobileNetV1 || p == EncoderImageProcessorPreset::MobileNetV2,
        preset_defaults(p, c),
    ensures
        c.geometry == (EncoderGeometry::ShortestEdgeThenCenterCrop {
            shortest_edge: 256,
            crop_size: ImageSize { height: 224, width: 224 },
        }),
        c.resample == ResizeFilter::Bilinear,
        spec_encoder_geometry_plan(c.geometry, image) == Ok::<EncoderGeometryPlan, PresetProcessorError>(
            EncoderGeometryPlan {
                crop_before_resize: None,
                resize: EncoderResizeStep::ShortestEdge(256),
                crop_after_resize: Some(ImageSize { height: 224, width: 224 }),
            },
        ),
{
}


/// A stage of the recipe that describes an encoder geometry.
#[derive(Clone, Copy, Debug, PartialEq, Eq)]
pub enum EncoderRecipeStage {
    /// Warp to fixed dimensions.
    ResizeFixed {
        /// Output dimensions.
        size: ImageSize,
        /// Resampling filter.
        filter: ResizeFilter,
        /// Resize parity backend.
        parity: ResizeParity,
    },
    /// Aspect-preserving resize of the shorter side to `shortest_edge`.
    ResizeShortestEdge {
        /// Shorter-side target.
        shortest_edge: usize,
        /// Resampling filter.
        filter: ResizeFilter,
        /// Resize parity backend.
        parity: ResizeParity,
    },
    /// Aspect-preserving resize of the shorter side to `output_edge / crop_percentage`,
    /// truncated; the percentage is an `f64` bit pattern.
    ResizeShortestEdgeOverCropPercentage {
        /// Final square edge.
        output_edge: usize,
        /// Crop percentage as an `f64` bit pattern.
        crop_percentage: u64,
        /// Resampling filter.
        filter: ResizeFilter,
        /// Resize parity backend.
        parity: ResizeParity,
    },
    /// Center crop to these dimensions.
    CenterCrop(ImageSize),
}

/// The recipe stages of `g`: its resize, then its center crop where it has one. A scaled
/// shortest edge whose product overflows or whose denominator is zero is recorded as 0,
/// and the Perceiver source crop and the Paddle alignment are not recorded.
pub open spec fn spec_encoder_recipe_stages(g: EncoderGeometry, filter: ResizeFilter, parity: ResizeParity) -> Seq<EncoderRecipeStage> {
    match g {
        EncoderGeometry::Fixed { size } | EncoderGeometry::PerceiverCropThenResize { size, .. } =>
            seq![EncoderRecipeStage::ResizeFixed { size, filter, parity }],
        EncoderGeometry::FixedThenCenterCrop { size, crop_size } =>
            seq![EncoderRecipeStage::ResizeFixed { size, filter, parity }, EncoderRecipeStage::CenterCrop(crop_size)],
        EncoderGeometry::ShortestEdgeThenCenterCrop { shortest_edge, crop_size }
        | EncoderGeometry::PaddleShortestEdgeThenCenterCrop { shortest_edge, crop_size, .. } =>
            seq![EncoderRecipeStage::ResizeShortestEdge { shortest_edge, filter, parity }, EncoderRecipeStage::CenterCrop(crop_size)],
        EncoderGeometry::ScaledShortestEdgeThenCenterCrop { shortest_edge, scale_numerator, scale_denominator, crop_size } => {
            let scaled = match spec_scaled_shortest_edge(shortest_edge, scale_numerator, scale_denominator) {
                Ok(edge) => edge,
                Err(_) => 0,
            };
            seq![EncoderRecipeStage::ResizeShortestEdge { shortest_edge: scaled, filter, parity }, EncoderRecipeStage::CenterCrop(crop_size)]
        },
        EncoderGeometry::CropPercentage { output_edge, crop_percentage, warp_at_or_above } => {
            if warp_at_or_above matches Some(threshold) && output_edge >= threshold {
                seq![EncoderRecipeStage::ResizeFixed { size: ImageSize { height: output_edge, width: output_edge }, filter, parity }]
            } else {
                seq![
                    EncoderRecipeStage::ResizeShortestEdgeOverCropPercentage { output_edge, crop_percentage, filter, parity },
                    EncoderRecipeStage::CenterCrop(ImageSize { height: output_edge, width: output_edge }),
                ]
            }
        },
    }
}

impl EncoderGeometry {
    /// Returns the recipe stages that describe this geometry.
    pub fn recipe_stages(self, filter: ResizeFilter, parity: ResizeParity) -> (r: Vec<EncoderRecipeStage>)
        ensures
            r@ == spec_encoder_recipe_stages(self, filter, parity),
    {
        match self {
            EncoderGeometry::Fixed { size } | EncoderGeometry::PerceiverCropThenResize { size, .. } => {
                vec![EncoderRecipeStage::ResizeFixed { size, filter, parity }]
            },
            EncoderGeometry::FixedThenCenterCrop { size, crop_size } => {
                vec![EncoderRecipeStage::ResizeFixed { size, filter, parity }, EncoderRecipeStage::CenterCrop(crop_size)]
            },
            EncoderGeometry::ShortestEdgeThenCenterCrop { shortest_edge, crop_size }
            | EncoderGeometry::PaddleShortestEdgeThenCenterCrop { shortest_edge, crop_size, .. } => {
                vec![EncoderRecipeStage::ResizeShortestEdge { shortest_edge, filter, parity }, EncoderRecipeStage::CenterCrop(crop_size)]
            },
            EncoderGeometry::ScaledShortestEdgeThenCenterCrop { shortest_edge, scale_numerator, scale_denominator, crop_size } => {
                let scaled = match scaled_shortest_edge(shortest_edge, scale_numerator, scale_denominator) {
                    Ok(edge) => edge,
                    Err(_) => 0,
                };
                vec![EncoderRecipeStage::ResizeShortestEdge { shortest_edge: scaled, filter, parity }, EncoderRecipeStage::CenterCrop(crop_size)]
            },
            EncoderGeometry::CropPercentage { output_edge, crop_percentage, warp_at_or_above } => {
                let warp = match warp_at_or_above {
                    Some(threshold) => output_edge >= threshold,
                    None => false,
                };
                if warp {
                    vec![EncoderRecipeStage::ResizeFixed { size: square_size(output_edge), filter, parity }]
                } else {
                    vec![
                        EncoderRecipeStage::ResizeShortestEdgeOverCropPercentage { output_edge, crop_percentage, filter, parity },
                        EncoderRecipeStage::CenterCrop(square_size(output_edge)),
                    ]
                }
            },
        }
    }
}
} // verus!
