//! Audited task-vision preprocessing configurations, their validation and
//! the reflection index used by mirrored context padding.

use vstd::prelude::*;

use crate::errors::{ImageProcessorError, TransformError};
use crate::families::{
    clip_image_mean, clip_image_std, imagenet_image_mean, imagenet_image_std, spec_clip_image_mean,
    spec_clip_image_std, spec_imagenet_image_mean, spec_imagenet_image_std, spec_standard_image_mean,
    spec_standard_image_std, standard_image_mean, standard_image_std, DEFAULT_RESCALE_FACTOR,
};
use crate::generic::{config_is, ImageProcessor, ImageProcessorConfig};
use crate::geometry::{
    round_up_is_least_multiple, round_up_size_to_multiple, spec_image_size_new, spec_round_up_size_to_multiple, ImageSize,
};
use crate::marigold::Padding;
use crate::media::{spec_image_frame_check, ImageFrame};
use crate::layout::{batched_layout_for_image_layout, spec_batched_layout_for_image_layout, ImageLayout};
use crate::settings::{BatchExecution, ImageDecodeBackend, PixelFormat, ResizeFilter, ResizeMode, ResizeParity};
use crate::task_vision_presets::{
    PaddleDetectionLimit, TaskVisionColorMode, TaskVisionPadding, TaskVisionProcessorPreset, TaskVisionResize,
};
use crate::text::{ends_with_seq, str_ends_with};

verus! {

/// Shared preprocessing configuration of the audited task-vision presets.
/// Floating-point settings hold IEEE-754 bit patterns.
#[derive(Clone, Debug, PartialEq, Eq)]
pub struct TaskVisionImageProcessorConfig {
    /// Upstream preset represented by this configuration.
    pub preset: TaskVisionProcessorPreset,
    /// Resize geometry.
    pub resize: TaskVisionResize,
    /// Padding applied before resize.
    pub pre_resize_padding: TaskVisionPadding,
    /// Padding applied after resize.
    pub post_resize_padding: TaskVisionPadding,
    /// Color conversion policy.
    pub color_mode: TaskVisionColorMode,
    /// Whether RGB channels are emitted in reverse order.
    pub reverse_channels: bool,
    /// Resize filter.
    pub resample: ResizeFilter,
    /// Resize parity implementation.
    pub resize_parity: ResizeParity,
    /// Whether tensor values are rescaled.
    pub do_rescale: bool,
    /// Tensor rescale factor.
    pub rescale_factor: u32,
    /// Whether per-channel normalization is applied.
    pub do_normalize: bool,
    /// Normalization means.
    pub image_mean: Vec<u32>,
    /// Normalization standard deviations.
    pub image_std: Vec<u32>,
    /// Device-independent output image layout.
    pub output_layout: ImageLayout,
    /// Whether preprocessing emits a valid-pixel mask.
    pub emit_pixel_mask: bool,
    /// Whether preprocessing emits upstream original-size metadata.
    pub emit_original_sizes: bool,
    /// Whether preprocessing emits resized-size metadata.
    pub emit_reshaped_input_sizes: bool,
    /// Image decode backend.
    pub decode_backend: ImageDecodeBackend,
    /// Batch execution policy.
    pub batch_execution: BatchExecution,
}

/// The DETR-style detectors.
pub open spec fn is_detr_style(p: TaskVisionProcessorPreset) -> bool {
    p == TaskVisionProcessorPreset::ConditionalDetr || p == TaskVisionProcessorPreset::DeformableDetr || p
        == TaskVisionProcessorPreset::GroundingDino || p == TaskVisionProcessorPreset::RfDetr
}

/// The keypoint-matching presets, SuperPoint included.
pub open spec fn is_keypoint_matching(p: TaskVisionProcessorPreset) -> bool {
    p == TaskVisionProcessorPreset::EfficientLoFtr || p == TaskVisionProcessorPreset::LightGlue || p
        == TaskVisionProcessorPreset::SuperGlue || p == TaskVisionProcessorPreset::SuperPoint
}

/// A fixed resize target.
pub open spec fn fixed(height: usize, width: usize) -> TaskVisionResize {
    TaskVisionResize::Fixed { size: ImageSize { height, width } }
}

/// Resize geometry of a preset.
pub open spec fn spec_task_resize(p: TaskVisionProcessorPreset) -> TaskVisionResize {
    match p {
        TaskVisionProcessorPreset::ConditionalDetr | TaskVisionProcessorPreset::DeformableDetr
        | TaskVisionProcessorPreset::GroundingDino | TaskVisionProcessorPreset::RfDetr
        | TaskVisionProcessorPreset::OneFormer => TaskVisionResize::ShortestEdge {
            shortest_edge: 800,
            longest_edge: Some(1333),
            multiple: None,
        },
        TaskVisionProcessorPreset::Yolos => TaskVisionResize::ShortestEdge {
            shortest_edge: 800,
            longest_edge: Some(1333),
            multiple: Some(16),
        },
        TaskVisionProcessorPreset::Mask2Former | TaskVisionProcessorPreset::MaskFormer => TaskVisionResize::ShortestEdge {
            shortest_edge: 800,
            longest_edge: Some(1333),
            multiple: Some(32),
        },
        TaskVisionProcessorPreset::Eomt => TaskVisionResize::ShortestEdge {
            shortest_edge: 640,
            longest_edge: Some(640),
            multiple: None,
        },
        TaskVisionProcessorPreset::OwlVit => fixed(768, 768),
        TaskVisionProcessorPreset::Owlv2 => fixed(960, 960),
        TaskVisionProcessorPreset::PpDocLayoutV2 | TaskVisionProcessorPreset::PpDocLayoutV3 => fixed(800, 800),
        TaskVisionProcessorPreset::PpOcrV5ServerDet => TaskVisionResize::PaddleDetection {
            limit_side_len: 960,
            limit_type: PaddleDetectionLimit::Max,
            max_side_limit: Some(4000),
        },
        TaskVisionProcessorPreset::RtDetr => fixed(640, 640),
        TaskVisionProcessorPreset::Sam2 => fixed(1024, 1024),
        TaskVisionProcessorPreset::Sam3 => fixed(1008, 1008),
        TaskVisionProcessorPreset::Sapiens2 => fixed(1024, 768),
        TaskVisionProcessorPreset::SegGpt | TaskVisionProcessorPreset::TipsV2Dpt | TaskVisionProcessorPreset::TipsV2 => fixed(448, 448),
        TaskVisionProcessorPreset::Segformer => fixed(512, 512),
        TaskVisionProcessorPreset::VitMatte | TaskVisionProcessorPreset::ChmV2 => TaskVisionResize::NoResize,
        TaskVisionProcessorPreset::Dpt | TaskVisionProcessorPreset::PromptDepthAnything => fixed(384, 384),
        TaskVisionProcessorPreset::DepthPro => fixed(1536, 1536),
        TaskVisionProcessorPreset::Glpn => TaskVisionResize::RoundDownToMultiple { multiple: 32 },
        TaskVisionProcessorPreset::ZoeDepth => fixed(384, 512),
        TaskVisionProcessorPreset::EfficientLoFtr | TaskVisionProcessorPreset::LightGlue
        | TaskVisionProcessorPreset::SuperGlue | TaskVisionProcessorPreset::SuperPoint => fixed(480, 640),
        TaskVisionProcessorPreset::VitPose => fixed(256, 192),
    }
}

/// Padding applied before resize by a preset.
pub open spec fn spec_task_pre_padding(p: TaskVisionProcessorPreset) -> TaskVisionPadding {
    if p == TaskVisionProcessorPreset::Owlv2 {
        TaskVisionPadding::SquareBottomRight
    } else if p == TaskVisionProcessorPreset::ZoeDepth {
        TaskVisionPadding::ZoeReflect
    } else {
        TaskVisionPadding::NoPadding
    }
}

/// Padding applied after resize by a preset.
pub open spec fn spec_task_post_padding(p: TaskVisionProcessorPreset) -> TaskVisionPadding {
    if p == TaskVisionProcessorPreset::VitMatte {
        TaskVisionPadding::BottomRightToMultiple { multiple: 32 }
    } else if p == TaskVisionProcessorPreset::ChmV2 {
        TaskVisionPadding::CenterToMultiple { multiple: 16 }
    } else {
        TaskVisionPadding::NoPadding
    }
}

/// Resize filter of a preset.
pub open spec fn spec_task_resample(p: TaskVisionProcessorPreset) -> ResizeFilter {
    match p {
        TaskVisionProcessorPreset::OwlVit | TaskVisionProcessorPreset::PpDocLayoutV2
        | TaskVisionProcessorPreset::PpDocLayoutV3 | TaskVisionProcessorPreset::SegGpt
        | TaskVisionProcessorPreset::ChmV2 | TaskVisionProcessorPreset::Dpt
        | TaskVisionProcessorPreset::PromptDepthAnything => ResizeFilter::Bicubic,
        _ => ResizeFilter::Bilinear,
    }
}

/// Whether a preset normalizes its pixels.
pub open spec fn spec_task_normalizes(p: TaskVisionProcessorPreset) -> bool {
    !(p == TaskVisionProcessorPreset::RtDetr || p == TaskVisionProcessorPreset::Glpn || p
        == TaskVisionProcessorPreset::TipsV2Dpt || p == TaskVisionProcessorPreset::TipsV2 || is_keypoint_matching(p))
}

/// Whether a preset uses the standard `0.5` statistics.
pub open spec fn uses_standard_stats(p: TaskVisionProcessorPreset) -> bool {
    p == TaskVisionProcessorPreset::Sam3 || p == TaskVisionProcessorPreset::VitMatte || p
        == TaskVisionProcessorPreset::Dpt || p == TaskVisionProcessorPreset::PromptDepthAnything || p
        == TaskVisionProcessorPreset::DepthPro || p == TaskVisionProcessorPreset::ZoeDepth
}

/// The CHMv2 means, as `f32` bit patterns.
pub open spec fn spec_chm_v2_mean() -> Seq<u32> {
    seq![0x3ED7_0A3Du32, 0x3ED2_6E98u32, 0x3E97_8D50u32]
}

/// The CHMv2 standard deviations, as `f32` bit patterns.
pub open spec fn spec_chm_v2_std() -> Seq<u32> {
    seq![0x3E5A_1CACu32, 0x3E1F_BE77u32, 0x3E12_6E98u32]
}

/// Normalization means of a preset; empty when it does not normalize.
pub open spec fn spec_task_mean(p: TaskVisionProcessorPreset) -> Seq<u32> {
    if !spec_task_normalizes(p) {
        Seq::empty()
    } else if p == TaskVisionProcessorPreset::OwlVit || p == TaskVisionProcessorPreset::Owlv2 {
        spec_clip_image_mean()
    } else if p == TaskVisionProcessorPreset::PpDocLayoutV2 || p == TaskVisionProcessorPreset::PpDocLayoutV3 {
        seq![0u32, 0u32, 0u32]
    } else if uses_standard_stats(p) {
        spec_standard_image_mean()
    } else if p == TaskVisionProcessorPreset::ChmV2 {
        spec_chm_v2_mean()
    } else {
        spec_imagenet_image_mean()
    }
}

/// Normalization standard deviations of a preset; empty when it does not normalize.
pub open spec fn spec_task_std(p: TaskVisionProcessorPreset) -> Seq<u32> {
    if !spec_task_normalizes(p) {
        Seq::empty()
    } else if p == TaskVisionProcessorPreset::OwlVit || p == TaskVisionProcessorPreset::Owlv2 {
        spec_clip_image_std()
    } else if p == TaskVisionProcessorPreset::PpDocLayoutV2 || p == TaskVisionProcessorPreset::PpDocLayoutV3 {
        seq![0x3F80_0000u32, 0x3F80_0000u32, 0x3F80_0000u32]
    } else if uses_standard_stats(p) {
        spec_standard_image_std()
    } else if p == TaskVisionProcessorPreset::ChmV2 {
        spec_chm_v2_std()
    } else {
        spec_imagenet_image_std()
    }
}

/// Whether `c` holds the audited defaults of preset `p` with resize parity
/// `parity`.
pub open spec fn task_defaults_with_parity(p: TaskVisionProcessorPreset, parity: ResizeParity, c: TaskVisionImageProcessorConfig) -> bool {
    &&& c.preset == p
    &&& c.resize == spec_task_resize(p)
    &&& c.pre_resize_padding == spec_task_pre_padding(p)
    &&& c.post_resize_padding == spec_task_post_padding(p)
    &&& c.color_mode == (if is_keypoint_matching(p) && p != TaskVisionProcessorPreset::SuperPoint {
        TaskVisionColorMode::GrayscaleRgb
    } else {
        TaskVisionColorMode::Rgb
    })
    &&& c.reverse_channels == (p == TaskVisionProcessorPreset::PpOcrV5ServerDet)
    &&& c.resample == spec_task_resample(p)
    &&& c.resize_parity == parity
    &&& c.do_rescale
    &&& c.rescale_factor == DEFAULT_RESCALE_FACTOR
    &&& c.do_normalize == spec_task_normalizes(p)
    &&& c.image_mean@ == spec_task_mean(p)
    &&& c.image_std@ == spec_task_std(p)
    &&& c.output_layout == ImageLayout::ChannelsHeightWidth
    &&& c.emit_pixel_mask == (is_detr_style(p) || p == TaskVisionProcessorPreset::Yolos || p
        == TaskVisionProcessorPreset::Mask2Former || p == TaskVisionProcessorPreset::MaskFormer || p
        == TaskVisionProcessorPreset::OneFormer)
    &&& c.emit_original_sizes == (is_detr_style(p) || p == TaskVisionProcessorPreset::Yolos || p
        == TaskVisionProcessorPreset::PpOcrV5ServerDet || p == TaskVisionProcessorPreset::Sam2 || p
        == TaskVisionProcessorPreset::Sam3)
    &&& c.emit_reshaped_input_sizes == (is_detr_style(p) || p == TaskVisionProcessorPreset::Yolos)
    &&& c.decode_backend == ImageDecodeBackend::ImageCrate
    &&& c.batch_execution == BatchExecution::Sequential
}

/// Whether `c` holds the audited defaults of preset `p`.
pub open spec fn task_defaults(p: TaskVisionProcessorPreset, c: TaskVisionImageProcessorConfig) -> bool {
    task_defaults_with_parity(p, ResizeParity::Torchvision, c)
}

fn fixed_size(height: usize, width: usize) -> (r: TaskVisionResize)
    ensures
        r == fixed(height, width),
{
    TaskVisionResize::Fixed { size: ImageSize { height, width } }
}

fn shortest_edge(edge: usize, longest_edge: Option<usize>, multiple: Option<usize>) -> (r: TaskVisionResize)
    ensures
        r == (TaskVisionResize::ShortestEdge { shortest_edge: edge, longest_edge, multiple }),
{
    TaskVisionResize::ShortestEdge { shortest_edge: edge, longest_edge, multiple }
}

fn task_stats(preset: TaskVisionProcessorPreset) -> (r: (Vec<u32>, Vec<u32>))
    ensures
        r.0@ == spec_task_mean(preset),
        r.1@ == spec_task_std(preset),
{
    let normalizes = !(preset == TaskVisionProcessorPreset::RtDetr || preset == TaskVisionProcessorPreset::Glpn
        || preset == TaskVisionProcessorPreset::TipsV2Dpt || preset == TaskVisionProcessorPreset::TipsV2
        || preset == TaskVisionProcessorPreset::EfficientLoFtr || preset == TaskVisionProcessorPreset::LightGlue
        || preset == TaskVisionProcessorPreset::SuperGlue || preset == TaskVisionProcessorPreset::SuperPoint);
    if !normalizes {
        let mean: Vec<u32> = Vec::new();
        let std: Vec<u32> = Vec::new();
        assert(mean@ =~= Seq::<u32>::empty());
        assert(std@ =~= Seq::<u32>::empty());
        return (mean, std);
    }
    match preset {
        TaskVisionProcessorPreset::OwlVit | TaskVisionProcessorPreset::Owlv2 => (clip_image_mean(), clip_image_std()),
        TaskVisionProcessorPreset::PpDocLayoutV2 | TaskVisionProcessorPreset::PpDocLayoutV3 => {
            let mean = vec![0u32, 0u32, 0u32];
            let std = vec![0x3F80_0000u32, 0x3F80_0000u32, 0x3F80_0000u32];
            assert(mean@ =~= seq![0u32, 0u32, 0u32]);
            assert(std@ =~= seq![0x3F80_0000u32, 0x3F80_0000u32, 0x3F80_0000u32]);
            (mean, std)
        },
        TaskVisionProcessorPreset::Sam3 | TaskVisionProcessorPreset::VitMatte | TaskVisionProcessorPreset::Dpt
        | TaskVisionProcessorPreset::PromptDepthAnything | TaskVisionProcessorPreset::DepthPro
        | TaskVisionProcessorPreset::ZoeDepth => (standard_image_mean(), standard_image_std()),
        TaskVisionProcessorPreset::ChmV2 => {
            let mean = vec![0x3ED7_0A3Du32, 0x3ED2_6E98u32, 0x3E97_8D50u32];
            let std = vec![0x3E5A_1CACu32, 0x3E1F_BE77u32, 0x3E12_6E98u32];
            assert(mean@ =~= spec_chm_v2_mean());
            assert(std@ =~= spec_chm_v2_std());
            (mean, std)
        },
        _ => (imagenet_image_mean(), imagenet_image_std()),
    }
}

impl TaskVisionImageProcessorConfig {
    /// Creates the audited default configuration for a preset.
    pub fn for_preset(preset: TaskVisionProcessorPreset) -> (r: TaskVisionImageProcessorConfig)
        ensures
            task_defaults(preset, r),
    {
        let resize = match preset {
            TaskVisionProcessorPreset::ConditionalDetr | TaskVisionProcessorPreset::DeformableDetr
            | TaskVisionProcessorPreset::GroundingDino | TaskVisionProcessorPreset::RfDetr
            | TaskVisionProcessorPreset::OneFormer => shortest_edge(800, Some(1333), None),
            TaskVisionProcessorPreset::Yolos => shortest_edge(800, Some(1333), Some(16)),
            TaskVisionProcessorPreset::Mask2Former | TaskVisionProcessorPreset::MaskFormer => shortest_edge(
                800,
                Some(1333),
                Some(32),
            ),
            TaskVisionProcessorPreset::Eomt => shortest_edge(640, Some(640), None),
            TaskVisionProcessorPreset::OwlVit => fixed_size(768, 768),
            TaskVisionProcessorPreset::Owlv2 => fixed_size(960, 960),
            TaskVisionProcessorPreset::PpDocLayoutV2 | TaskVisionProcessorPreset::PpDocLayoutV3 => fixed_size(800, 800),
            TaskVisionProcessorPreset::PpOcrV5ServerDet => TaskVisionResize::PaddleDetection {
                limit_side_len: 960,
                limit_type: PaddleDetectionLimit::Max,
                max_side_limit: Some(4000),
            },
            TaskVisionProcessorPreset::RtDetr => fixed_size(640, 640),
            TaskVisionProcessorPreset::Sam2 => fixed_size(1024, 1024),
            TaskVisionProcessorPreset::Sam3 => fixed_size(1008, 1008),
            TaskVisionProcessorPreset::Sapiens2 => fixed_size(1024, 768),
            TaskVisionProcessorPreset::SegGpt | TaskVisionProcessorPreset::TipsV2Dpt
            | TaskVisionProcessorPreset::TipsV2 => fixed_size(448, 448),
            TaskVisionProcessorPreset::Segformer => fixed_size(512, 512),
            TaskVisionProcessorPreset::VitMatte | TaskVisionProcessorPreset::ChmV2 => TaskVisionResize::NoResize,
            TaskVisionProcessorPreset::Dpt | TaskVisionProcessorPreset::PromptDepthAnything => fixed_size(384, 384),
            TaskVisionProcessorPreset::DepthPro => fixed_size(1536, 1536),
            TaskVisionProcessorPreset::Glpn => TaskVisionResize::RoundDownToMultiple { multiple: 32 },
            TaskVisionProcessorPreset::ZoeDepth => fixed_size(384, 512),
            TaskVisionProcessorPreset::EfficientLoFtr | TaskVisionProcessorPreset::LightGlue
            | TaskVisionProcessorPreset::SuperGlue | TaskVisionProcessorPreset::SuperPoint => fixed_size(480, 640),
            TaskVisionProcessorPreset::VitPose => fixed_size(256, 192),
        };
        let pre_resize_padding = match preset {
            TaskVisionProcessorPreset::Owlv2 => TaskVisionPadding::SquareBottomRight,
            TaskVisionProcessorPreset::ZoeDepth => TaskVisionPadding::ZoeReflect,
            _ => TaskVisionPadding::NoPadding,
        };
        let post_resize_padding = match preset {
            TaskVisionProcessorPreset::VitMatte => TaskVisionPadding::BottomRightToMultiple { multiple: 32 },
            TaskVisionProcessorPreset::ChmV2 => TaskVisionPadding::CenterToMultiple { multiple: 16 },
            _ => TaskVisionPadding::NoPadding,
        };
        let color_mode = match preset {
            TaskVisionProcessorPreset::EfficientLoFtr | TaskVisionProcessorPreset::LightGlue
            | TaskVisionProcessorPreset::SuperGlue => TaskVisionColorMode::GrayscaleRgb,
            _ => TaskVisionColorMode::Rgb,
        };
        let resample = match preset {
            TaskVisionProcessorPreset::OwlVit | TaskVisionProcessorPreset::PpDocLayoutV2
            | TaskVisionProcessorPreset::PpDocLayoutV3 | TaskVisionProcessorPreset::SegGpt
            | TaskVisionProcessorPreset::ChmV2 | TaskVisionProcessorPreset::Dpt
            | TaskVisionProcessorPreset::PromptDepthAnything => ResizeFilter::Bicubic,
            _ => ResizeFilter::Bilinear,
        };
        let detr_style = match preset {
            TaskVisionProcessorPreset::ConditionalDetr | TaskVisionProcessorPreset::DeformableDetr
            | TaskVisionProcessorPreset::GroundingDino | TaskVisionProcessorPreset::RfDetr
            | TaskVisionProcessorPreset::Yolos => true,
            _ => false,
        };
        let emit_pixel_mask = match preset {
            TaskVisionProcessorPreset::Mask2Former | TaskVisionProcessorPreset::MaskFormer
            | TaskVisionProcessorPreset::OneFormer => true,
            _ => detr_style,
        };
        let emit_original_sizes = match preset {
            TaskVisionProcessorPreset::PpOcrV5ServerDet | TaskVisionProcessorPreset::Sam2
            | TaskVisionProcessorPreset::Sam3 => true,
            _ => detr_style,
        };
        let do_normalize = match preset {
            TaskVisionProcessorPreset::RtDetr | TaskVisionProcessorPreset::Glpn | TaskVisionProcessorPreset::TipsV2Dpt
            | TaskVisionProcessorPreset::TipsV2 | TaskVisionProcessorPreset::EfficientLoFtr
            | TaskVisionProcessorPreset::LightGlue | TaskVisionProcessorPreset::SuperGlue
            | TaskVisionProcessorPreset::SuperPoint => false,
            _ => true,
        };
        let (image_mean, image_std) = task_stats(preset);
        TaskVisionImageProcessorConfig {
            preset,
            resize,
            pre_resize_padding,
            post_resize_padding,
            color_mode,
            reverse_channels: preset == TaskVisionProcessorPreset::PpOcrV5ServerDet,
            resample,
            resize_parity: ResizeParity::Torchvision,
            do_rescale: true,
            rescale_factor: DEFAULT_RESCALE_FACTOR,
            do_normalize,
            image_mean,
            image_std,
            output_layout: ImageLayout::ChannelsHeightWidth,
            emit_pixel_mask,
            emit_original_sizes,
            emit_reshaped_input_sizes: detr_style,
            decode_backend: ImageDecodeBackend::ImageCrate,
            batch_execution: BatchExecution::Sequential,
        }
    }

    /// Creates the audited configuration for a canonical class name or an
    /// alias: the first catalog preset that answers to the name, with Pillow
    /// compatibility resizing for `*ImageProcessorPil` names and Torchvision
    /// resizing otherwise; `None` when no preset answers to it.
    pub fn for_class_name(class_name: &str) -> (r: Option<TaskVisionImageProcessorConfig>)
        ensures
            r is None <==> forall|p: TaskVisionProcessorPreset| !p.answers_to(class_name@),
            r matches Some(c) ==> {
                &&& c.preset.answers_to(class_name@)
                &&& forall|j: int|
                    0 <= j < c.preset.catalog_index() ==> !(#[trigger] TaskVisionProcessorPreset::ALL@[j]).answers_to(
                        class_name@,
                    )
                &&& task_defaults_with_parity(
                    c.preset,
                    if ends_with_seq(class_name@, "ImageProcessorPil"@) {
                        ResizeParity::Compatibility
                    } else {
                        ResizeParity::Torchvision
                    },
                    c,
                )
            },
    {
        let preset = match TaskVisionProcessorPreset::from_class_name(class_name) {
            Some(p) => p,
            None => return None,
        };
        let mut config = Self::for_preset(preset);
        if str_ends_with(class_name, "ImageProcessorPil") {
            config.resize_parity = ResizeParity::Compatibility;
        }
        Some(config)
    }

    /// The tensor-stage config of this configuration for input pixels in `pixel_format`.
    fn tensor_processor_config(&self, pixel_format: PixelFormat) -> (r: ImageProcessorConfig)
        ensures
            config_is(
                r,
                false,
                None,
                None,
                ResizeMode::Default,
                self.resample,
                self.resize_parity,
                self.decode_backend,
                self.batch_execution,
                Some(pixel_format),
                self.do_rescale,
                self.rescale_factor,
                self.do_normalize,
                self.image_mean@,
                self.image_std@,
                false,
                spec_batched_layout_for_image_layout(self.output_layout),
            ),
    {
        ImageProcessorConfig {
            do_resize: false,
            height: None,
            width: None,
            resize_mode: ResizeMode::Default,
            resample: self.resample,
            resize_parity: self.resize_parity,
            decode_backend: self.decode_backend,
            batch_execution: self.batch_execution,
            pixel_format: Some(pixel_format),
            do_rescale: self.do_rescale,
            rescale_factor: self.rescale_factor,
            do_normalize: self.do_normalize,
            image_mean: self.image_mean.clone(),
            image_std: self.image_std.clone(),
            do_binarize: false,
            output_layout: batched_layout_for_image_layout(self.output_layout),
        }
    }
}

/// The check of an axis divisor: it must be non-zero.
pub open spec fn spec_validate_multiple(multiple: usize) -> Result<(), ImageProcessorError> {
    if multiple == 0 {
        Err(ImageProcessorError::Transform(TransformError::InvalidScaleFactor(multiple)))
    } else {
        Ok(())
    }
}

/// The check of a padding policy: its divisor, when it has one, must be non-zero.
pub open spec fn spec_validate_padding(padding: TaskVisionPadding) -> Result<(), ImageProcessorError> {
    match padding {
        TaskVisionPadding::BottomRightToMultiple { multiple } => spec_validate_multiple(multiple),
        TaskVisionPadding::CenterToMultiple { multiple } => spec_validate_multiple(multiple),
        _ => Ok(()),
    }
}

/// The check of a resize policy: a fixed size must be non-zero, a shortest
/// edge and its optional cap must be non-zero, and every divisor must be
/// non-zero.
pub open spec fn spec_validate_resize(resize: TaskVisionResize) -> Result<(), ImageProcessorError> {
    match resize {
        TaskVisionResize::NoResize => Ok(()),
        TaskVisionResize::Fixed { size } => match spec_image_size_new(size.height, size.width) {
            Err(e) => Err(ImageProcessorError::Transform(e)),
            Ok(_) => Ok(()),
        },
        TaskVisionResize::ShortestEdge { shortest_edge, longest_edge, multiple } => if shortest_edge == 0
            || longest_edge == Some(0usize) {
            Err(ImageProcessorError::Transform(TransformError::InvalidScaleFactor(shortest_edge)))
        } else {
            match multiple {
                Some(m) => spec_validate_multiple(m),
                None => Ok(()),
            }
        },
        TaskVisionResize::RoundDownToMultiple { multiple } => spec_validate_multiple(multiple),
        TaskVisionResize::PaddleDetection { limit_side_len, .. } => spec_validate_multiple(limit_side_len),
    }
}

/// The check of a task-vision configuration: its resize policy, then its
/// padding before and after resize.
pub open spec fn spec_validate_task_vision_config(c: TaskVisionImageProcessorConfig) -> Result<(), ImageProcessorError> {
    match spec_validate_resize(c.resize) {
        Err(e) => Err(e),
        Ok(()) => match spec_validate_padding(c.pre_resize_padding) {
            Err(e) => Err(e),
            Ok(()) => spec_validate_padding(c.post_resize_padding),
        },
    }
}

fn validate_multiple(multiple: usize) -> (r: Result<(), ImageProcessorError>)
    ensures
        r == spec_validate_multiple(multiple),
{
    if multiple == 0 {
        return Err(ImageProcessorError::Transform(TransformError::InvalidScaleFactor(multiple)));
    }
    Ok(())
}

fn validate_padding(padding: TaskVisionPadding) -> (r: Result<(), ImageProcessorError>)
    ensures
        r == spec_validate_padding(padding),
{
    match padding {
        TaskVisionPadding::BottomRightToMultiple { multiple } => validate_multiple(multiple),
        TaskVisionPadding::CenterToMultiple { multiple } => validate_multiple(multiple),
        _ => Ok(()),
    }
}

/// Checks a task-vision configuration.
pub fn validate_task_vision_config(config: &TaskVisionImageProcessorConfig) -> (r: Result<(), ImageProcessorError>)
    ensures
        r == spec_validate_task_vision_config(*config),
{
    let resized = match config.resize {
        TaskVisionResize::NoResize => Ok(()),
        TaskVisionResize::Fixed { size } => match ImageSize::new(size.height, size.width) {
            Err(e) => Err(ImageProcessorError::Transform(e)),
            Ok(_) => Ok(()),
        },
        TaskVisionResize::ShortestEdge { shortest_edge, longest_edge, multiple } => {
            let zero_cap = match longest_edge {
                Some(edge) => edge == 0,
                None => false,
            };
            if shortest_edge == 0 || zero_cap {
                Err(ImageProcessorError::Transform(TransformError::InvalidScaleFactor(shortest_edge)))
            } else {
                match multiple {
                    Some(m) => validate_multiple(m),
                    None => Ok(()),
                }
            }
        },
        TaskVisionResize::RoundDownToMultiple { multiple } => validate_multiple(multiple),
        TaskVisionResize::PaddleDetection { limit_side_len, .. } => validate_multiple(limit_side_len),
    };
    if let Err(e) = resized {
        return Err(e);
    }
    if let Err(e) = validate_padding(config.pre_resize_padding) {
        return Err(e);
    }
    validate_padding(config.post_resize_padding)
}

/// Shared processor for task-vision preset preprocessing.
#[derive(Debug)]
pub struct TaskVisionImageProcessor {
    config: TaskVisionImageProcessorConfig,
    tensor_processor: ImageProcessor,
}

impl TaskVisionImageProcessor {
    /// The processor configuration.
    pub closed spec fn spec_config(&self) -> TaskVisionImageProcessorConfig {
        self.config
    }

    /// The tensor stage the processor runs.
    pub closed spec fn spec_tensor_processor(&self) -> ImageProcessor {
        self.tensor_processor
    }

    /// Creates a task-vision processor after validating its configuration;
    /// its tensor stage converts RGB pixels with the configured rescaling,
    /// normalization and layout.
    pub fn new(config: TaskVisionImageProcessorConfig) -> (r: Result<TaskVisionImageProcessor, ImageProcessorError>)
        ensures
            match spec_validate_task_vision_config(config) {
                Err(e) => r == Err::<TaskVisionImageProcessor, ImageProcessorError>(e),
                Ok(()) => r matches Ok(p) && p.spec_config() == config && config_is(
                    p.spec_tensor_processor().spec_config(),
                    false,
                    None,
                    None,
                    ResizeMode::Default,
                    config.resample,
                    config.resize_parity,
                    config.decode_backend,
                    config.batch_execution,
                    Some(PixelFormat::Rgb8),
                    config.do_rescale,
                    config.rescale_factor,
                    config.do_normalize,
                    config.image_mean@,
                    config.image_std@,
                    false,
                    spec_batched_layout_for_image_layout(config.output_layout),
                ),
            },
    {
        if let Err(e) = validate_task_vision_config(&config) {
            return Err(e);
        }
        let tensor_processor = ImageProcessor::from_config(config.tensor_processor_config(PixelFormat::Rgb8));
        Ok(TaskVisionImageProcessor { config, tensor_processor })
    }

    /// Returns this processor's configuration.
    pub fn config(&self) -> (r: &TaskVisionImageProcessorConfig)
        ensures
            *r == self.spec_config(),
    {
        &self.config
    }
}

/// Index that mirrored padding reads for `index` along an axis of `length`
/// values: the index reflected across both ends (without repeating the end
/// values) until it falls inside the axis; zero for an axis of at most one value.
pub open spec fn spec_mirror_index(index: int, length: int) -> int {
    if length <= 1 {
        0
    } else {
        let period = 2 * (length - 1);
        let m = index % period;
        if m <= length - 1 {
            m
        } else {
            period - m
        }
    }
}

/// One reflection step, across either end of an axis of `upper + 1` values,
/// keeps the index that mirrored padding reads.
proof fn lemma_mirror_step(c: int, n: int, upper: int)
    requires
        upper >= 1,
        n == -c || n == 2 * upper - c,
    ensures
        spec_mirror_index(n, upper + 1) == spec_mirror_index(c, upper + 1),
{
    let p = 2 * upper;
    vstd::arithmetic::div_mod::lemma_fundamental_div_mod(c, p);
    vstd::arithmetic::div_mod::lemma_mod_bound(c, p);
    let q = c / p;
    let m = c % p;
    if m == 0 {
        if n == -c {
            assert(n == (-q) * p + 0) by (nonlinear_arith)
                requires
                    c == p * q + m,
                    m == 0,
                    n == -c,
            ;
            vstd::arithmetic::div_mod::lemma_fundamental_div_mod_converse(n, p, -q, 0);
        } else {
            assert(n == (1 - q) * p + 0) by (nonlinear_arith)
                requires
                    c == p * q + m,
                    m == 0,
                    n == p - c,
            ;
            vstd::arithmetic::div_mod::lemma_fundamental_div_mod_converse(n, p, 1 - q, 0);
        }
    } else {
        if n == -c {
            assert(n == (-q - 1) * p + (p - m)) by (nonlinear_arith)
                requires
                    c == p * q + m,
                    n == -c,
            ;
            vstd::arithmetic::div_mod::lemma_fundamental_div_mod_converse(n, p, -q - 1, p - m);
        } else {
            assert(n == (-q) * p + (p - m)) by (nonlinear_arith)
                requires
                    c == p * q + m,
                    n == p - c,
            ;
            vstd::arithmetic::div_mod::lemma_fundamental_div_mod_converse(n, p, -q, p - m);
        }
    }
}

/// Computes the index that mirrored padding reads.
pub fn mirror_index(index: isize, length: usize) -> (r: usize)
    requires
        index > isize::MIN,
        2 * length <= isize::MAX,
    ensures
        r == spec_mirror_index(index as int, length as int),
        length > 1 ==> r < length,
{
    if length <= 1 {
        return 0;
    }
    let upper = length as isize - 1;
    let ghost period = 2 * (upper as int);
    let mut current = index;
    while current < 0 || current > upper
        invariant
            upper >= 1,
            period == 2 * upper,
            upper == length - 1,
            2 * length <= isize::MAX,
            current > isize::MIN,
            spec_mirror_index(current as int, length as int) == spec_mirror_index(index as int, length as int),
        decreases 2 * (if current < 0 { -current } else { current as int }) + (if current < 0 { 1int } else { 0int }),
    {
        let next: isize = if current < 0 { -current } else { 2 * upper - current };
        proof {
            lemma_mirror_step(current as int, next as int, upper as int);
        }
        current = next;
    }
    proof {
        vstd::arithmetic::div_mod::lemma_fundamental_div_mod_converse(current as int, period, 0, current as int);
    }
    current as usize
}

/// The audited defaults of every task-vision preset pass validation, so a
/// processor can always be built from them.
pub proof fn task_vision_defaults_are_valid(p: TaskVisionProcessorPreset, c: TaskVisionImageProcessorConfig)
    requires
        task_defaults(p, c),
    ensures
        spec_validate_task_vision_config(c) == Ok::<(), ImageProcessorError>(()),
{
}

/// The presets that warp every image to one fixed size, and that size as height by
/// width: 768 square for OWL-ViT, 960 for OWLv2, 800 for the PP-DocLayout models, 640
/// for RT-DETR, 1024 for SAM 2, 1008 for SAM 3, 1024 by 768 for Sapiens2, 448 for
/// SegGPT and TIPSv2, 512 for SegFormer, 384 for DPT and Prompt Depth Anything, 1536
/// for DepthPro, 384 by 512 for ZoeDepth, 480 by 640 for the keypoint matchers, and 256
/// by 192 for ViTPose; every other preset resizes by the image's own shape or not at all,
/// the DETR-style detectors and OneFormer to a shorter side of 800 and a longer side of
/// at most 1333.
pub proof fn task_vision_fixed_resize_sizes(p: TaskVisionProcessorPreset, c: TaskVisionImageProcessorConfig)
    requires
        task_defaults(p, c),
    ensures
        ({
            let expected: Option<(usize, usize)> = match p {
                TaskVisionProcessorPreset::OwlVit => Some((768, 768)),
                TaskVisionProcessorPreset::Owlv2 => Some((960, 960)),
                TaskVisionProcessorPreset::PpDocLayoutV2 | TaskVisionProcessorPreset::PpDocLayoutV3 => Some((800, 800)),
                TaskVisionProcessorPreset::RtDetr => Some((640, 640)),
                TaskVisionProcessorPreset::Sam2 => Some((1024, 1024)),
                TaskVisionProcessorPreset::Sam3 => Some((1008, 1008)),
                TaskVisionProcessorPreset::Sapiens2 => Some((1024, 768)),
                TaskVisionProcessorPreset::SegGpt | TaskVisionProcessorPreset::TipsV2Dpt
                | TaskVisionProcessorPreset::TipsV2 => Some((448, 448)),
                TaskVisionProcessorPreset::Segformer => Some((512, 512)),
                TaskVisionProcessorPreset::Dpt | TaskVisionProcessorPreset::PromptDepthAnything => Some((384, 384)),
                TaskVisionProcessorPreset::DepthPro => Some((1536, 1536)),
                TaskVisionProcessorPreset::ZoeDepth => Some((384, 512)),
                TaskVisionProcessorPreset::EfficientLoFtr | TaskVisionProcessorPreset::LightGlue
                | TaskVisionProcessorPreset::SuperGlue | TaskVisionProcessorPreset::SuperPoint => Some((480, 640)),
                TaskVisionProcessorPreset::VitPose => Some((256, 192)),
                _ => None,
            };
            &&& (c.resize is Fixed) == (expected is Some)
            &&& c.resize matches TaskVisionResize::Fixed { size } ==> expected == Some((size.height, size.width))
        }),
        (is_detr_style(p) || p == TaskVisionProcessorPreset::OneFormer) ==> c.resize == (TaskVisionResize::ShortestEdge {
            shortest_edge: 800,
            longest_edge: Some(1333),
            multiple: None,
        }),
{
}

/// SegFormer warps every image to 512 by 512.
pub proof fn segformer_resizes_to_512_square(c: TaskVisionImageProcessorConfig)
    requires
        task_defaults(TaskVisionProcessorPreset::Segformer, c),
    ensures
        c.resize == (TaskVisionResize::Fixed { size: ImageSize { height: 512, width: 512 } }),
{
}

/// The zero padding that a padding policy adds around an image of `size`:
/// up to the next multiple at the bottom and right, up to the next multiple
/// split evenly with the smaller half above and on the left, or to a square
/// at the bottom and right; `None` without padding and for ZoeDepth's
/// reflected context, whose width is computed in floating point.
pub open spec fn spec_task_zero_padding(size: ImageSize, padding: TaskVisionPadding) -> Result<Option<Padding>, ImageProcessorError> {
    match spec_image_size_new(size.height, size.width) {
        Err(e) => Err(ImageProcessorError::Transform(e)),
        Ok(_) => match padding {
            TaskVisionPadding::BottomRightToMultiple { multiple } => match spec_round_up_size_to_multiple(size, multiple) {
                Err(e) => Err(e),
                Ok(target) => Ok(Some(Padding {
                    top: 0,
                    right: (target.width - size.width) as usize,
                    bottom: (target.height - size.height) as usize,
                    left: 0,
                })),
            },
            TaskVisionPadding::CenterToMultiple { multiple } => match spec_round_up_size_to_multiple(size, multiple) {
                Err(e) => Err(e),
                Ok(target) => {
                    let height = (target.height - size.height) as usize;
                    let width = (target.width - size.width) as usize;
                    Ok(Some(Padding {
                        top: height / 2,
                        right: (width - width / 2) as usize,
                        bottom: (height - height / 2) as usize,
                        left: width / 2,
                    }))
                },
            },
            TaskVisionPadding::SquareBottomRight => {
                let edge = if size.height >= size.width { size.height } else { size.width };
                Ok(Some(Padding { top: 0, right: (edge - size.width) as usize, bottom: (edge - size.height) as usize, left: 0 }))
            },
            _ => Ok(None),
        },
    }
}

/// Computes the zero padding that a padding policy adds around an image.
pub fn task_zero_padding(size: ImageSize, padding: TaskVisionPadding) -> (r: Result<Option<Padding>, ImageProcessorError>)
    ensures
        r == spec_task_zero_padding(size, padding),
{
    if let Err(e) = ImageSize::new(size.height, size.width) {
        return Err(ImageProcessorError::Transform(e));
    }
    match padding {
        TaskVisionPadding::BottomRightToMultiple { multiple } => {
            let target = match round_up_size_to_multiple(size, multiple) {
                Ok(t) => t,
                Err(e) => return Err(e),
            };
            proof {
                round_up_is_least_multiple(size.height, multiple);
                round_up_is_least_multiple(size.width, multiple);
            }
            Ok(Some(Padding { top: 0, right: target.width - size.width, bottom: target.height - size.height, left: 0 }))
        },
        TaskVisionPadding::CenterToMultiple { multiple } => {
            let target = match round_up_size_to_multiple(size, multiple) {
                Ok(t) => t,
                Err(e) => return Err(e),
            };
            proof {
                round_up_is_least_multiple(size.height, multiple);
                round_up_is_least_multiple(size.width, multiple);
            }
            let height = target.height - size.height;
            let width = target.width - size.width;
            Ok(Some(Padding { top: height / 2, right: width - width / 2, bottom: height - height / 2, left: width / 2 }))
        },
        TaskVisionPadding::SquareBottomRight => {
            let edge = if size.height >= size.width { size.height } else { size.width };
            Ok(Some(Padding { top: 0, right: edge - size.width, bottom: edge - size.height, left: 0 }))
        },
        _ => Ok(None),
    }
}

/// Padding to a multiple reaches the smallest multiple: along each axis the
/// padded extent is a multiple of the divisor, and less than one divisor of
/// padding is added.
pub proof fn task_padding_reaches_multiple(size: ImageSize, padding: TaskVisionPadding, multiple: usize, p: Padding)
    requires
        padding == (TaskVisionPadding::BottomRightToMultiple { multiple }) || padding == (
        TaskVisionPadding::CenterToMultiple { multiple }),
        spec_task_zero_padding(size, padding) == Ok::<Option<Padding>, ImageProcessorError>(Some(p)),
    ensures
        (size.height + p.top + p.bottom) % (multiple as int) == 0,
        (size.width + p.left + p.right) % (multiple as int) == 0,
        p.top + p.bottom < multiple,
        p.left + p.right < multiple,
{
    round_up_is_least_multiple(size.height, multiple);
    round_up_is_least_multiple(size.width, multiple);
}

/// Index of the byte that lands at `k` when the first and third byte of each
/// whole three-byte pixel of `len` bytes are exchanged; trailing bytes stay.
pub open spec fn rgb_swap_source(k: int, len: int) -> int {
    if k < len - len % 3 {
        let channel = k % 3;
        if channel == 0 {
            k + 2
        } else if channel == 2 {
            k - 2
        } else {
            k
        }
    } else {
        k
    }
}

/// Reverses the channel order of every whole RGB pixel of a frame and
/// returns it as an RGB frame; the frame check of the new frame decides
/// whether the bytes form one.
pub fn reverse_rgb_channels(frame: ImageFrame) -> (r: Result<ImageFrame, ImageProcessorError>)
    ensures
        match spec_image_frame_check(frame.spec_width(), frame.spec_height(), PixelFormat::Rgb8, frame.spec_data().len()) {
            Err(e) => r == Err::<ImageFrame, ImageProcessorError>(ImageProcessorError::Media(e)),
            Ok(()) => r matches Ok(f) && f.spec_width() == frame.spec_width() && f.spec_height() == frame.spec_height()
                && f.spec_pixel_format() == PixelFormat::Rgb8 && f.spec_data().len() == frame.spec_data().len()
                && forall|k: int|
                0 <= k < f.spec_data().len() ==> #[trigger] f.spec_data()[k] == frame.spec_data()[rgb_swap_source(
                    k,
                    frame.spec_data().len() as int,
                )],
        },
{
    let width = frame.width();
    let height = frame.height();
    let data = frame.data();
    let n = data.len();
    let full = n - n % 3;
    let mut swapped: Vec<u8> = Vec::new();
    let mut k: usize = 0;
    while k < n
        invariant
            swapped@.len() == k,
            k <= n,
            n == data@.len(),
            full == n - n % 3,
            data@ == frame.spec_data(),
            forall|i: int| 0 <= i < k ==> #[trigger] swapped@[i] == data@[rgb_swap_source(i, n as int)],
        decreases n - k,
    {
        let source = if k < full {
            let channel = k % 3;
            if channel == 0 {
                k + 2
            } else if channel == 2 {
                k - 2
            } else {
                k
            }
        } else {
            k
        };
        proof {
            vstd::arithmetic::div_mod::lemma_fundamental_div_mod(k as int, 3);
            vstd::arithmetic::div_mod::lemma_fundamental_div_mod(n as int, 3);
        }
        swapped.push(data[source]);
        k = k + 1;
    }
    match ImageFrame::new(width, height, PixelFormat::Rgb8, swapped) {
        Ok(f) => Ok(f),
        Err(e) => Err(ImageProcessorError::Media(e)),
    }
}

} // verus!
