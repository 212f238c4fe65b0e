//! Hugging Face `preprocessor_config.json` reading: the fields a config may carry,
//! the routing from its processor type to a family, and the family settings that
//! each field overrides.

use vstd::prelude::*;

use crate::detection::{DetrImageProcessorConfig, SamImageProcessorConfig, ShortestEdgeResizeConfig};
use crate::diffusion::{
    BlipImageProcessorConfig, CanvasFill, Flux2ImageProcessorConfig, HunyuanVideo15ImageProcessorConfig,
    JoyImageEditImageProcessorConfig, Ltx2VideoHdrProcessorConfig, WanAnimateImageProcessorConfig,
    BLIP_IMAGE_SIZE, FLUX2_VAE_LATENT_CHANNELS, FLUX2_VAE_SCALE_FACTOR, HUNYUAN_VIDEO_15_VAE_LATENT_CHANNELS,
    HUNYUAN_VIDEO_15_VAE_SCALE_FACTOR, JOY_IMAGE_BASE_SIZE,
};
use crate::families::{
    spec_clip_image_mean, spec_clip_image_std, spec_imagenet_image_mean, spec_imagenet_image_std,
    spec_llava_next_pinpoints, spec_standard_image_mean, spec_standard_image_std,
    ClipImageProcessorConfig, DocumentOcrImageProcessorConfig,
    Gemma3ImageProcessorConfig, Idefics3ImageProcessorConfig, LlavaNextImageProcessorConfig,
    MllamaImageProcessorConfig, PixtralImageProcessorConfig, QwenVlImageProcessorConfig,
    ResizeLimits, VideoMaeImageProcessorConfig, VisualClozeProcessorConfig, VitImageProcessorConfig,
    VivitImageProcessorConfig, DEFAULT_RESCALE_FACTOR, GEMMA3_MIN_RATIO_TO_ACTIVATE,
    SIGNED_RESCALE_FACTOR, VISUAL_CLOZE_VAE_LATENT_CHANNELS, VISUAL_CLOZE_VAE_SCALE_FACTOR,
};
use crate::layout::{ImageLayout, VideoLayout};
use crate::geometry::{spec_image_size_new, ImageSize};
use crate::json::{
    decode_any, decode_bool, decode_f32, decode_f32_list, decode_f64, decode_pairs, decode_string,
    decode_usize, decoded_bool, decoded_f32, decoded_f32_list, decoded_f64, decoded_pairs,
    decoded_string, decoded_usize, entries_view, entry_text, find_entry, json_top_level,
    json_number, json_number_of, number_as_usize, number_to_usize, parse_json_object, JsonNumber, JsonShallow, JsonShallowView,
};
use crate::marigold::{MarigoldImageProcessorConfig, MARIGOLD_VAE_SCALE_FACTOR};
use crate::settings::{BatchExecution, ImageDecodeBackend, PixelFormat, ResizeFilter, ResizeParity};
use crate::text::{contains_seq, has_pair_from, lemma_pair_blocks, occurs_at, str_contains, str_equal};
use crate::vae::VaeImageProcessorConfig;

verus! {

/// Errors raised while reading a preprocessor config.
#[derive(Clone, Debug, PartialEq, Eq)]
pub enum ProcessorConfigError {
    /// Neither `image_processor_type` nor `processor_class` is set.
    MissingProcessorType,
    /// The processor type names no supported family.
    UnsupportedProcessorType(String),
    /// Both RGB and grayscale conversion are requested.
    ConflictingPixelFormatConversion,
    /// A size field does not describe a valid size.
    InvalidSize {
        /// Name of the rejected field.
        field: &'static str,
    },
    /// An HDR transform other than `logc3` is requested.
    UnsupportedHdrTransform(String),
    /// The text is not a JSON object, or a known field has a value of the wrong type.
    InvalidJson,
}

/// A size field: a single edge, or a map of optional edges.
#[derive(Clone, Copy, Debug, PartialEq, Eq, Structural)]
pub enum HfSize {
    /// One edge used for both dimensions.
    Edge(usize),
    /// Named edges.
    Edges {
        /// Height.
        height: Option<usize>,
        /// Width.
        width: Option<usize>,
        /// Shortest edge.
        shortest_edge: Option<usize>,
        /// Longest edge.
        longest_edge: Option<usize>,
        /// Height used when `height` is absent.
        max_height: Option<usize>,
        /// Width used when `width` is absent.
        max_width: Option<usize>,
    },
}

/// The fields of a preprocessor config that processor families read. Floating-point
/// fields hold IEEE-754 bit patterns.
#[derive(Clone, Debug, PartialEq, Eq)]
pub struct HfPreprocessorConfig {
    /// `image_processor_type`.
    pub image_processor_type: Option<String>,
    /// `processor_class`, used when `image_processor_type` is absent.
    pub processor_class: Option<String>,
    /// `size`.
    pub size: Option<HfSize>,
    /// `crop_size`.
    pub crop_size: Option<HfSize>,
    /// `max_image_size`.
    pub max_image_size: Option<HfSize>,
    /// `resample`: a filter code or name, kept as the JSON value.
    pub resample: Option<JsonShallow>,
    /// `do_center_crop`.
    pub do_center_crop: Option<bool>,
    /// `do_resize`.
    pub do_resize: Option<bool>,
    /// `do_thumbnail`.
    pub do_thumbnail: Option<bool>,
    /// `do_align_long_axis`.
    pub do_align_long_axis: Option<bool>,
    /// `do_image_splitting`.
    pub do_image_splitting: Option<bool>,
    /// `do_pan_and_scan`.
    pub do_pan_and_scan: Option<bool>,
    /// `do_pad`.
    pub do_pad: Option<bool>,
    /// `pad_size`.
    pub pad_size: Option<HfSize>,
    /// `pad_to_multiple`.
    pub pad_to_multiple: Option<usize>,
    /// `image_grid_pinpoints`, as `[height, width]` pairs.
    pub image_grid_pinpoints: Option<Vec<(usize, usize)>>,
    /// `max_image_tiles`.
    pub max_image_tiles: Option<usize>,
    /// `pan_and_scan_min_crop_size`.
    pub pan_and_scan_min_crop_size: Option<usize>,
    /// `pan_and_scan_max_num_crops`.
    pub pan_and_scan_max_num_crops: Option<usize>,
    /// `pan_and_scan_min_ratio_to_activate`, as an `f64` bit pattern.
    pub pan_and_scan_min_ratio_to_activate: Option<u64>,
    /// `min_pixels`.
    pub min_pixels: Option<usize>,
    /// `max_pixels`.
    pub max_pixels: Option<usize>,
    /// `patch_size`.
    pub patch_size: Option<HfSize>,
    /// `temporal_patch_size`.
    pub temporal_patch_size: Option<usize>,
    /// `merge_size`.
    pub merge_size: Option<usize>,
    /// `do_rescale`.
    pub do_rescale: Option<bool>,
    /// `rescale_factor`, as an `f32` bit pattern.
    pub rescale_factor: Option<u32>,
    /// `offset`.
    pub offset: Option<bool>,
    /// `do_normalize`.
    pub do_normalize: Option<bool>,
    /// `do_range_check`.
    pub do_range_check: Option<bool>,
    /// `do_binarize`.
    pub do_binarize: Option<bool>,
    /// `do_convert_rgb`.
    pub do_convert_rgb: Option<bool>,
    /// `do_convert_grayscale`.
    pub do_convert_grayscale: Option<bool>,
    /// `vae_scale_factor`.
    pub vae_scale_factor: Option<usize>,
    /// `vae_latent_channels`.
    pub vae_latent_channels: Option<usize>,
    /// `resolution`.
    pub resolution: Option<usize>,
    /// `basesize`.
    pub basesize: Option<usize>,
    /// `hdr_transform`.
    pub hdr_transform: Option<String>,
    /// `image_mean`, as `f32` bit patterns.
    pub image_mean: Option<Vec<u32>>,
    /// `image_std`, as `f32` bit patterns.
    pub image_std: Option<Vec<u32>>,
}

/// A processor family's settings read from a preprocessor config.
#[derive(Clone, Debug, PartialEq, Eq)]
pub enum ProcessorFamilyConfig {
    /// CLIP.
    Clip(ClipImageProcessorConfig),
    /// BLIP.
    Blip(BlipImageProcessorConfig),
    /// ViT.
    Vit(VitImageProcessorConfig),
    /// DETR.
    Detr(DetrImageProcessorConfig),
    /// SAM.
    Sam(SamImageProcessorConfig),
    /// VideoMAE.
    VideoMae(VideoMaeImageProcessorConfig),
    /// ViViT.
    Vivit(VivitImageProcessorConfig),
    /// Qwen-VL.
    QwenVl(QwenVlImageProcessorConfig),
    /// LLaVA-NeXT.
    LlavaNext(LlavaNextImageProcessorConfig),
    /// Pixtral.
    Pixtral(PixtralImageProcessorConfig),
    /// Idefics3.
    Idefics3(Idefics3ImageProcessorConfig),
    /// Gemma 3.
    Gemma3(Gemma3ImageProcessorConfig),
    /// Mllama.
    Mllama(MllamaImageProcessorConfig),
    /// Document and OCR processors.
    DocumentOcr(DocumentOcrImageProcessorConfig),
    /// Generic VAE.
    Vae(VaeImageProcessorConfig),
    /// LDM3D VAE.
    VaeLdm3d(VaeImageProcessorConfig),
    /// FLUX.2.
    Flux2(Flux2ImageProcessorConfig),
    /// VisualCloze.
    VisualCloze(VisualClozeProcessorConfig),
    /// HunyuanVideo 1.5.
    HunyuanVideo15(HunyuanVideo15ImageProcessorConfig),
    /// Marigold.
    Marigold(MarigoldImageProcessorConfig),
    /// JoyImage edit.
    JoyImageEdit(JoyImageEditImageProcessorConfig),
    /// Wan Animate.
    WanAnimate(WanAnimateImageProcessorConfig),
    /// LTX-2 video HDR.
    Ltx2VideoHdr(Ltx2VideoHdrProcessorConfig),
}

/// The family a processor type routes to.
#[derive(Clone, Copy, Debug, PartialEq, Eq, Structural)]
pub enum ProcessorFamily {
    /// BLIP.
    Blip,
    /// FLUX.2.
    Flux2,
    /// VisualCloze.
    VisualCloze,
    /// HunyuanVideo 1.5.
    HunyuanVideo15,
    /// Marigold.
    Marigold,
    /// JoyImage edit.
    JoyImageEdit,
    /// Wan Animate.
    WanAnimate,
    /// LTX-2 video HDR.
    Ltx2VideoHdr,
    /// CLIP.
    Clip,
    /// LDM3D VAE.
    VaeLdm3d,
    /// Generic VAE.
    Vae,
    /// VideoMAE.
    VideoMae,
    /// ViViT.
    Vivit,
    /// ViT.
    Vit,
    /// LLaVA-NeXT.
    LlavaNext,
    /// Pixtral.
    Pixtral,
    /// Idefics3.
    Idefics3,
    /// Gemma 3.
    Gemma3,
    /// Mllama.
    Mllama,
    /// Qwen-VL.
    QwenVl,
    /// DETR.
    Detr,
    /// SAM.
    Sam,
    /// Document and OCR processors.
    DocumentOcr,
}

/// The family a processor type routes to: the first family, in a fixed order,
/// whose marker the type contains.
pub open spec fn spec_route_processor_type(t: Seq<char>) -> Option<ProcessorFamily> {
    if contains_seq(t, "BlipImageProcessor"@) {
        Some(ProcessorFamily::Blip)
    } else if contains_seq(t, "Flux2ImageProcessor"@) {
        Some(ProcessorFamily::Flux2)
    } else if contains_seq(t, "VisualClozeProcessor"@) {
        Some(ProcessorFamily::VisualCloze)
    } else if contains_seq(t, "HunyuanVideo15ImageProcessor"@) {
        Some(ProcessorFamily::HunyuanVideo15)
    } else if contains_seq(t, "MarigoldImageProcessor"@) {
        Some(ProcessorFamily::Marigold)
    } else if contains_seq(t, "JoyImageEditImageProcessor"@) {
        Some(ProcessorFamily::JoyImageEdit)
    } else if contains_seq(t, "WanAnimateImageProcessor"@) {
        Some(ProcessorFamily::WanAnimate)
    } else if contains_seq(t, "LTX2VideoHDRProcessor"@) {
        Some(ProcessorFamily::Ltx2VideoHdr)
    } else if contains_seq(t, "CLIPImageProcessor"@) {
        Some(ProcessorFamily::Clip)
    } else if contains_seq(t, "VaeImageProcessorLDM3D"@) || contains_seq(t, "VaeImageProcessorLdm3d"@) {
        Some(ProcessorFamily::VaeLdm3d)
    } else if contains_seq(t, "VaeImageProcessor"@) {
        Some(ProcessorFamily::Vae)
    } else if contains_seq(t, "VideoMAE"@) {
        Some(ProcessorFamily::VideoMae)
    } else if contains_seq(t, "Vivit"@) {
        Some(ProcessorFamily::Vivit)
    } else if contains_seq(t, "ViTImageProcessor"@) {
        Some(ProcessorFamily::Vit)
    } else if contains_seq(t, "LlavaNext"@) || contains_seq(t, "LLaVA-NeXT"@) {
        Some(ProcessorFamily::LlavaNext)
    } else if contains_seq(t, "Pixtral"@) {
        Some(ProcessorFamily::Pixtral)
    } else if contains_seq(t, "Idefics3"@) {
        Some(ProcessorFamily::Idefics3)
    } else if contains_seq(t, "Gemma3"@) {
        Some(ProcessorFamily::Gemma3)
    } else if contains_seq(t, "Mllama"@) {
        Some(ProcessorFamily::Mllama)
    } else if contains_seq(t, "Qwen"@) {
        Some(ProcessorFamily::QwenVl)
    } else if contains_seq(t, "DetrImageProcessor"@) {
        Some(ProcessorFamily::Detr)
    } else if contains_seq(t, "SamImageProcessor"@) {
        Some(ProcessorFamily::Sam)
    } else if contains_seq(t, "Document"@) || contains_seq(t, "OCR"@) || contains_seq(t, "Donut"@) {
        Some(ProcessorFamily::DocumentOcr)
    } else {
        None
    }
}

/// Routes a processor type to its family.
pub fn route_processor_type(t: &str) -> (r: Option<ProcessorFamily>)
    ensures
        r == spec_route_processor_type(t@),
{
    if str_contains(t, "BlipImageProcessor") {
        Some(ProcessorFamily::Blip)
    } else if str_contains(t, "Flux2ImageProcessor") {
        Some(ProcessorFamily::Flux2)
    } else if str_contains(t, "VisualClozeProcessor") {
        Some(ProcessorFamily::VisualCloze)
    } else if str_contains(t, "HunyuanVideo15ImageProcessor") {
        Some(ProcessorFamily::HunyuanVideo15)
    } else if str_contains(t, "MarigoldImageProcessor") {
        Some(ProcessorFamily::Marigold)
    } else if str_contains(t, "JoyImageEditImageProcessor") {
        Some(ProcessorFamily::JoyImageEdit)
    } else if str_contains(t, "WanAnimateImageProcessor") {
        Some(ProcessorFamily::WanAnimate)
    } else if str_contains(t, "LTX2VideoHDRProcessor") {
        Some(ProcessorFamily::Ltx2VideoHdr)
    } else if str_contains(t, "CLIPImageProcessor") {
        Some(ProcessorFamily::Clip)
    } else if str_contains(t, "VaeImageProcessorLDM3D") || str_contains(t, "VaeImageProcessorLdm3d") {
        Some(ProcessorFamily::VaeLdm3d)
    } else if str_contains(t, "VaeImageProcessor") {
        Some(ProcessorFamily::Vae)
    } else if str_contains(t, "VideoMAE") {
        Some(ProcessorFamily::VideoMae)
    } else if str_contains(t, "Vivit") {
        Some(ProcessorFamily::Vivit)
    } else if str_contains(t, "ViTImageProcessor") {
        Some(ProcessorFamily::Vit)
    } else if str_contains(t, "LlavaNext") || str_contains(t, "LLaVA-NeXT") {
        Some(ProcessorFamily::LlavaNext)
    } else if str_contains(t, "Pixtral") {
        Some(ProcessorFamily::Pixtral)
    } else if str_contains(t, "Idefics3") {
        Some(ProcessorFamily::Idefics3)
    } else if str_contains(t, "Gemma3") {
        Some(ProcessorFamily::Gemma3)
    } else if str_contains(t, "Mllama") {
        Some(ProcessorFamily::Mllama)
    } else if str_contains(t, "Qwen") {
        Some(ProcessorFamily::QwenVl)
    } else if str_contains(t, "DetrImageProcessor") {
        Some(ProcessorFamily::Detr)
    } else if str_contains(t, "SamImageProcessor") {
        Some(ProcessorFamily::Sam)
    } else if str_contains(t, "Document") || str_contains(t, "OCR") || str_contains(t, "Donut") {
        Some(ProcessorFamily::DocumentOcr)
    } else {
        None
    }
}

/// `value` when present, `default` otherwise.
pub open spec fn or_default<T>(value: Option<T>, default: T) -> T {
    match value {
        Some(v) => v,
        None => default,
    }
}

/// The values a list field sets, or `default` when it is absent.
pub open spec fn list_or_default(value: Option<Vec<u32>>, default: Seq<u32>) -> Seq<u32> {
    match value {
        Some(v) => v@,
        None => default,
    }
}

/// Whether `a` lowercases (ASCII only) to `b`.
pub open spec fn lowercases_to(a: char, b: char) -> bool {
    if 'A' <= a && a <= 'Z' {
        b as u32 == a as u32 + 32
    } else {
        b == a
    }
}

/// Whether the ASCII lowercase form of `s` is `lower`.
pub open spec fn ascii_lowercase_is(s: Seq<char>, lower: Seq<char>) -> bool {
    s.len() == lower.len() && forall|i: int| 0 <= i < s.len() ==> lowercases_to(#[trigger] s[i], lower[i])
}

/// Whether the ASCII lowercase form of `s` is `lower`.
fn str_lowercase_is(s: &str, lower: &str) -> (r: bool)
    ensures
        r == ascii_lowercase_is(s@, lower@),
{
    let n = s.unicode_len();
    if n != lower.unicode_len() {
        return false;
    }
    let mut i: usize = 0;
    while i < n
        invariant
            n == s@.len(),
            n == lower@.len(),
            i <= n,
            forall|j: int| 0 <= j < i ==> lowercases_to(#[trigger] s@[j], lower@[j]),
        decreases n - i,
    {
        let a = s.get_char(i);
        let b = lower.get_char(i);
        let matches = if 'A' <= a && a <= 'Z' { b as u32 == a as u32 + 32 } else { b == a };
        if !matches {
            return false;
        }
        i = i + 1;
    }
    true
}

/// The resize filter a `resample` value selects: Pillow codes 0 to 3 or the filter
/// names in any ASCII case; anything else keeps `default`.
pub open spec fn spec_parse_hf_resample(value: JsonShallowView, default: ResizeFilter) -> ResizeFilter {
    match value {
        JsonShallowView::Number(t) => match json_number_of(t) {
            Some(JsonNumber::PosInt(code)) => if code == 0 {
                ResizeFilter::Nearest
            } else if code == 1 {
                ResizeFilter::Lanczos
            } else if code == 2 {
                ResizeFilter::Bilinear
            } else if code == 3 {
                ResizeFilter::Bicubic
            } else {
                default
            },
            _ => default,
        },
        JsonShallowView::Text(name) => {
            if ascii_lowercase_is(name, "nearest"@) {
                ResizeFilter::Nearest
            } else if ascii_lowercase_is(name, "lanczos"@) {
                ResizeFilter::Lanczos
            } else if ascii_lowercase_is(name, "bilinear"@) {
                ResizeFilter::Bilinear
            } else if ascii_lowercase_is(name, "bicubic"@) {
                ResizeFilter::Bicubic
            } else {
                default
            }
        },
        _ => default,
    }
}

/// Returns the resize filter a `resample` value selects.
pub fn parse_hf_resample(value: &JsonShallow, default: ResizeFilter) -> (r: ResizeFilter)
    ensures
        r == spec_parse_hf_resample(value.shallow_view(), default),
{
    match value {
        JsonShallow::Number(t) => match json_number(t.as_str()) {
            Some(JsonNumber::PosInt(code)) => if code == 0 {
                ResizeFilter::Nearest
            } else if code == 1 {
                ResizeFilter::Lanczos
            } else if code == 2 {
                ResizeFilter::Bilinear
            } else if code == 3 {
                ResizeFilter::Bicubic
            } else {
                default
            },
            _ => default,
        },
        JsonShallow::Text(name) => {
            if str_lowercase_is(name.as_str(), "nearest") {
                ResizeFilter::Nearest
            } else if str_lowercase_is(name.as_str(), "lanczos") {
                ResizeFilter::Lanczos
            } else if str_lowercase_is(name.as_str(), "bilinear") {
                ResizeFilter::Bilinear
            } else if str_lowercase_is(name.as_str(), "bicubic") {
                ResizeFilter::Bicubic
            } else {
                default
            }
        },
        _ => default,
    }
}

/// The filter a config's optional `resample` selects over `default`.
pub open spec fn resample_or(value: Option<JsonShallow>, default: ResizeFilter) -> ResizeFilter {
    match value {
        Some(v) => spec_parse_hf_resample(v.shallow_view(), default),
        None => default,
    }
}

/// A size checked to be non-zero, reported against `field`.
pub open spec fn checked_size(height: usize, width: usize, field: &'static str) -> Result<ImageSize, ProcessorConfigError> {
    match spec_image_size_new(height, width) {
        Ok(s) => Ok(s),
        Err(_) => Err(ProcessorConfigError::InvalidSize { field }),
    }
}

/// The size a size field describes: a single edge as a square; a map's height and
/// width (falling back to `max_height` and `max_width`); else its shortest or
/// longest edge as a square; else `default`.
pub open spec fn spec_size_or_edge(size: HfSize, field: &'static str, default: ImageSize) -> Result<ImageSize, ProcessorConfigError> {
    match size {
        HfSize::Edge(edge) => checked_size(edge, edge, field),
        HfSize::Edges { height, width, shortest_edge, longest_edge, max_height, max_width } => {
            let h = if height is Some { height } else { max_height };
            let w = if width is Some { width } else { max_width };
            let e = if shortest_edge is Some { shortest_edge } else { longest_edge };
            if h is Some && w is Some {
                checked_size(h->0, w->0, field)
            } else if e is Some {
                checked_size(e->0, e->0, field)
            } else {
                Ok(default)
            }
        },
    }
}

/// The square edge a size field describes; the default edge must be non-zero and
/// the described size square.
pub open spec fn spec_square_edge(size: HfSize, field: &'static str, default: usize) -> Result<usize, ProcessorConfigError> {
    match checked_size(default, default, field) {
        Err(e) => Err(e),
        Ok(d) => match spec_size_or_edge(size, field, d) {
            Err(e) => Err(e),
            Ok(s) => if s.height == s.width { Ok(s.height) } else { Err(ProcessorConfigError::InvalidSize { field }) },
        },
    }
}

/// The shortest-edge resize target a size field describes, if any: a single edge
/// without a cap, or a map's shortest edge (falling back to its longest edge)
/// capped by its longest edge.
pub open spec fn spec_shortest_edge_resize(size: HfSize, field: &'static str) -> Result<Option<ShortestEdgeResizeConfig>, ProcessorConfigError> {
    match size {
        HfSize::Edge(edge) => if edge == 0 {
            Err(ProcessorConfigError::InvalidSize { field })
        } else {
            Ok(Some(ShortestEdgeResizeConfig { shortest_edge: edge, longest_edge: None }))
        },
        HfSize::Edges { shortest_edge, longest_edge, .. } => {
            let s = if shortest_edge is Some { shortest_edge } else { longest_edge };
            if s is None {
                Ok(None)
            } else if s->0 == 0 || longest_edge == Some(0usize) {
                Err(ProcessorConfigError::InvalidSize { field })
            } else {
                Ok(Some(ShortestEdgeResizeConfig { shortest_edge: s->0, longest_edge }))
            }
        },
    }
}

impl HfSize {
    /// Returns the size a size field describes.
    pub fn image_size_or_edge(&self, field: &'static str, default: ImageSize) -> (r: Result<ImageSize, ProcessorConfigError>)
        ensures
            r == spec_size_or_edge(*self, field, default),
    {
        match self {
            HfSize::Edge(edge) => match ImageSize::new(*edge, *edge) {
                Ok(s) => Ok(s),
                Err(_) => Err(ProcessorConfigError::InvalidSize { field }),
            },
            HfSize::Edges { height, width, shortest_edge, longest_edge, max_height, max_width } => {
                let h = if height.is_some() { *height } else { *max_height };
                let w = if width.is_some() { *width } else { *max_width };
                let e = if shortest_edge.is_some() { *shortest_edge } else { *longest_edge };
                if let (Some(hv), Some(wv)) = (h, w) {
                    match ImageSize::new(hv, wv) {
                        Ok(s) => Ok(s),
                        Err(_) => Err(ProcessorConfigError::InvalidSize { field }),
                    }
                } else if let Some(ev) = e {
                    match ImageSize::new(ev, ev) {
                        Ok(s) => Ok(s),
                        Err(_) => Err(ProcessorConfigError::InvalidSize { field }),
                    }
                } else {
                    Ok(default)
                }
            },
        }
    }

    /// Returns the square edge a size field describes.
    pub fn square_edge(&self, field: &'static str, default: usize) -> (r: Result<usize, ProcessorConfigError>)
        ensures
            r == spec_square_edge(*self, field, default),
    {
        let d = match ImageSize::new(default, default) {
            Ok(s) => s,
            Err(_) => return Err(ProcessorConfigError::InvalidSize { field }),
        };
        let s = match self.image_size_or_edge(field, d) {
            Ok(s) => s,
            Err(e) => return Err(e),
        };
        if s.height == s.width {
            Ok(s.height)
        } else {
            Err(ProcessorConfigError::InvalidSize { field })
        }
    }

    /// Returns the shortest-edge resize target a size field describes, if any.
    pub fn shortest_edge_resize_config(&self, field: &'static str) -> (r: Result<Option<ShortestEdgeResizeConfig>, ProcessorConfigError>)
        ensures
            r == spec_shortest_edge_resize(*self, field),
    {
        match self {
            HfSize::Edge(edge) => match ShortestEdgeResizeConfig::new(*edge, None) {
                Some(c) => Ok(Some(c)),
                None => Err(ProcessorConfigError::InvalidSize { field }),
            },
            HfSize::Edges { shortest_edge, longest_edge, .. } => {
                let s = if shortest_edge.is_some() { *shortest_edge } else { *longest_edge };
                match s {
                    None => Ok(None),
                    Some(edge) => match ShortestEdgeResizeConfig::new(edge, *longest_edge) {
                        Some(c) => Ok(Some(c)),
                        None => Err(ProcessorConfigError::InvalidSize { field }),
                    },
                }
            },
        }
    }
}

/// The product of a patch size and a merge size, which must be non-zero and fit `usize`.
pub open spec fn spec_hf_factor(patch_size: usize, merge_size: usize, field: &'static str) -> Result<usize, ProcessorConfigError> {
    if patch_size * merge_size > usize::MAX || patch_size * merge_size == 0 {
        Err(ProcessorConfigError::InvalidSize { field })
    } else {
        Ok((patch_size * merge_size) as usize)
    }
}

/// Returns the product of a patch size and a merge size.
pub fn checked_hf_factor(patch_size: usize, merge_size: usize, field: &'static str) -> (r: Result<usize, ProcessorConfigError>)
    ensures
        r == spec_hf_factor(patch_size, merge_size, field),
{
    match patch_size.checked_mul(merge_size) {
        Some(factor) => if factor > 0 { Ok(factor) } else { Err(ProcessorConfigError::InvalidSize { field }) },
        None => Err(ProcessorConfigError::InvalidSize { field }),
    }
}

/// The pixel-format conversion two flags request: RGB, grayscale, neither (which
/// gives `neither`), or both (an error). An absent RGB flag means `rgb_default`; an
/// absent grayscale flag means no grayscale conversion.
pub open spec fn spec_conversion(
    convert_rgb: Option<bool>,
    rgb_default: bool,
    convert_grayscale: Option<bool>,
    neither: Option<PixelFormat>,
) -> Result<Option<PixelFormat>, ProcessorConfigError> {
    let rgb = or_default(convert_rgb, rgb_default);
    let gray = or_default(convert_grayscale, false);
    if rgb && gray {
        Err(ProcessorConfigError::ConflictingPixelFormatConversion)
    } else if rgb {
        Ok(Some(PixelFormat::Rgb8))
    } else if gray {
        Ok(Some(PixelFormat::Luma8))
    } else {
        Ok(neither)
    }
}

/// Returns the pixel-format conversion two flags request.
pub fn pixel_format_conversion(
    convert_rgb: Option<bool>,
    rgb_default: bool,
    convert_grayscale: Option<bool>,
    neither: Option<PixelFormat>,
) -> (r: Result<Option<PixelFormat>, ProcessorConfigError>)
    ensures
        r == spec_conversion(convert_rgb, rgb_default, convert_grayscale, neither),
{
    let rgb = match convert_rgb {
        Some(v) => v,
        None => rgb_default,
    };
    let gray = match convert_grayscale {
        Some(v) => v,
        None => false,
    };
    if rgb && gray {
        Err(ProcessorConfigError::ConflictingPixelFormatConversion)
    } else if rgb {
        Ok(Some(PixelFormat::Rgb8))
    } else if gray {
        Ok(Some(PixelFormat::Luma8))
    } else {
        Ok(neither)
    }
}

/// Copies a list of bit patterns.
fn copy_values(values: &Vec<u32>) -> (r: Vec<u32>)
    ensures
        r@ == values@,
{
    let r = values.clone();
    assert(r@ =~= values@);
    r
}

/// The view of an optional string.
pub open spec fn opt_string_view(value: Option<String>) -> Option<Seq<char>> {
    match value {
        Some(s) => Some(s@),
        None => None,
    }
}

/// The view of an optional list of bit patterns.
pub open spec fn opt_list_view(value: Option<Vec<u32>>) -> Option<Seq<u32>> {
    match value {
        Some(v) => Some(v@),
        None => None,
    }
}

/// The view of an optional list of pairs.
pub open spec fn opt_pairs_view(value: Option<Vec<(usize, usize)>>) -> Option<Seq<(usize, usize)>> {
    match value {
        Some(v) => Some(v@),
        None => None,
    }
}

/// The view of an optional JSON value.
pub open spec fn opt_json_view(value: Option<JsonShallow>) -> Option<JsonShallowView> {
    match value {
        Some(v) => Some(v.shallow_view()),
        None => None,
    }
}

/// A string field of an object: absent, or its last entry decoded.
pub open spec fn string_field(entries: Seq<(Seq<char>, Seq<char>)>, key: Seq<char>) -> Result<Option<Seq<char>>, ()> {
    match entry_text(entries, key) {
        Some(t) => decoded_string(t),
        None => Ok(None),
    }
}

/// A boolean field of an object.
pub open spec fn bool_field(entries: Seq<(Seq<char>, Seq<char>)>, key: Seq<char>) -> Result<Option<bool>, ()> {
    match entry_text(entries, key) {
        Some(t) => decoded_bool(t),
        None => Ok(None),
    }
}

/// A `usize` field of an object.
pub open spec fn usize_field(entries: Seq<(Seq<char>, Seq<char>)>, key: Seq<char>) -> Result<Option<usize>, ()> {
    match entry_text(entries, key) {
        Some(t) => decoded_usize(t),
        None => Ok(None),
    }
}

/// A single-precision field of an object, as a bit pattern.
pub open spec fn f32_field(entries: Seq<(Seq<char>, Seq<char>)>, key: Seq<char>) -> Result<Option<u32>, ()> {
    match entry_text(entries, key) {
        Some(t) => decoded_f32(t),
        None => Ok(None),
    }
}

/// A double-precision field of an object, as a bit pattern.
pub open spec fn f64_field(entries: Seq<(Seq<char>, Seq<char>)>, key: Seq<char>) -> Result<Option<u64>, ()> {
    match entry_text(entries, key) {
        Some(t) => decoded_f64(t),
        None => Ok(None),
    }
}

/// A list-of-single-precision field of an object.
pub open spec fn f32_list_field(entries: Seq<(Seq<char>, Seq<char>)>, key: Seq<char>) -> Result<Option<Seq<u32>>, ()> {
    match entry_text(entries, key) {
        Some(t) => decoded_f32_list(t),
        None => Ok(None),
    }
}

/// A list-of-pairs field of an object.
pub open spec fn pairs_field(entries: Seq<(Seq<char>, Seq<char>)>, key: Seq<char>) -> Result<Option<Seq<(usize, usize)>>, ()> {
    match entry_text(entries, key) {
        Some(t) => decoded_pairs(t),
        None => Ok(None),
    }
}

/// A field of any JSON kind; `null` counts as absent.
pub open spec fn any_field(entries: Seq<(Seq<char>, Seq<char>)>, key: Seq<char>) -> Result<Option<JsonShallowView>, ()> {
    match entry_text(entries, key) {
        Some(t) => match json_top_level(t) {
            None => Err(()),
            Some(JsonShallowView::Null) => Ok(None),
            Some(v) => Ok(Some(v)),
        },
        None => Ok(None),
    }
}

/// A size field: `null` is absent; a `usize` is a single edge; an object or a
/// six-item array gives the named edges, each an optional `usize`.
pub open spec fn decoded_size(text: Seq<char>) -> Result<Option<HfSize>, ()> {
    match json_top_level(text) {
        Some(JsonShallowView::Null) => Ok(None),
        Some(JsonShallowView::Number(t)) => match json_number_of(t) {
            Some(n) => match number_as_usize(n) {
                Some(u) => Ok(Some(HfSize::Edge(u))),
                None => Err(()),
            },
            None => Err(()),
        },
        Some(JsonShallowView::Object(entries)) => match (
            usize_field(entries, "height"@),
            usize_field(entries, "width"@),
            usize_field(entries, "shortest_edge"@),
            usize_field(entries, "longest_edge"@),
            usize_field(entries, "max_height"@),
            usize_field(entries, "max_width"@),
        ) {
            (Ok(height), Ok(width), Ok(shortest_edge), Ok(longest_edge), Ok(max_height), Ok(max_width)) =>
                Ok(Some(HfSize::Edges { height, width, shortest_edge, longest_edge, max_height, max_width })),
            _ => Err(()),
        },
        Some(JsonShallowView::Array(items)) => if items.len() == 6 {
            match (
                decoded_usize(items[0]),
                decoded_usize(items[1]),
                decoded_usize(items[2]),
                decoded_usize(items[3]),
                decoded_usize(items[4]),
                decoded_usize(items[5]),
            ) {
                (Ok(height), Ok(width), Ok(shortest_edge), Ok(longest_edge), Ok(max_height), Ok(max_width)) =>
                    Ok(Some(HfSize::Edges { height, width, shortest_edge, longest_edge, max_height, max_width })),
                _ => Err(()),
            }
        } else {
            Err(())
        },
        _ => Err(()),
    }
}

/// A size field of an object.
pub open spec fn size_field(entries: Seq<(Seq<char>, Seq<char>)>, key: Seq<char>) -> Result<Option<HfSize>, ()> {
    match entry_text(entries, key) {
        Some(t) => decoded_size(t),
        None => Ok(None),
    }
}

/// Reads one optional `usize` entry of an object.
fn object_usize(entries: &[(String, String)], key: &str) -> (r: Result<Option<usize>, ()>)
    ensures
        r == usize_field(entries_view(entries@), key@),
{
    match find_entry(entries, key) {
        Some(text) => decode_usize(text.as_str()),
        None => Ok(None),
    }
}

/// Reads `text` as an optional size field.
pub fn decode_size(text: &str) -> (r: Result<Option<HfSize>, ()>)
    ensures
        r == decoded_size(text@),
{
    match decode_any(text) {
        Err(()) => Err(()),
        Ok(None) => Ok(None),
        Ok(Some(JsonShallow::Number(t))) => match json_number(t.as_str()) {
            Some(n) => match number_to_usize(n) {
                Some(u) => Ok(Some(HfSize::Edge(u))),
                None => Err(()),
            },
            None => Err(()),
        },
        Ok(Some(JsonShallow::Object(entries))) => {
            let height = object_usize(entries.as_slice(), "height");
            let width = object_usize(entries.as_slice(), "width");
            let shortest_edge = object_usize(entries.as_slice(), "shortest_edge");
            let longest_edge = object_usize(entries.as_slice(), "longest_edge");
            let max_height = object_usize(entries.as_slice(), "max_height");
            let max_width = object_usize(entries.as_slice(), "max_width");
            match (height, width, shortest_edge, longest_edge, max_height, max_width) {
                (Ok(height), Ok(width), Ok(shortest_edge), Ok(longest_edge), Ok(max_height), Ok(max_width)) =>
                    Ok(Some(HfSize::Edges { height, width, shortest_edge, longest_edge, max_height, max_width })),
                _ => Err(()),
            }
        },
        Ok(Some(JsonShallow::Array(items))) => {
            if items.len() != 6 {
                return Err(());
            }
            let ghost view = items@.map_values(|item: String| item@);
            assert(forall|i: int| 0 <= i < 6 ==> view[i] == (#[trigger] items@[i])@);
            let height = decode_usize(items[0].as_str());
            let width = decode_usize(items[1].as_str());
            let shortest_edge = decode_usize(items[2].as_str());
            let longest_edge = decode_usize(items[3].as_str());
            let max_height = decode_usize(items[4].as_str());
            let max_width = decode_usize(items[5].as_str());
            match (height, width, shortest_edge, longest_edge, max_height, max_width) {
                (Ok(height), Ok(width), Ok(shortest_edge), Ok(longest_edge), Ok(max_height), Ok(max_width)) =>
                    Ok(Some(HfSize::Edges { height, width, shortest_edge, longest_edge, max_height, max_width })),
                _ => Err(()),
            }
        },
        Ok(Some(_)) => Err(()),
    }
}

/// Whether `h` holds what each known field of an object reads as: the last entry
/// with the field's key, decoded by the field's type, or absent.
pub open spec fn hf_fields_read(entries: Seq<(Seq<char>, Seq<char>)>, h: HfPreprocessorConfig) -> bool {
    &&& string_field(entries, "image_processor_type"@) == Ok::<Option<Seq<char>>, ()>(opt_string_view(h.image_processor_type))
    &&& string_field(entries, "processor_class"@) == Ok::<Option<Seq<char>>, ()>(opt_string_view(h.processor_class))
    &&& size_field(entries, "size"@) == Ok::<Option<HfSize>, ()>(h.size)
    &&& size_field(entries, "crop_size"@) == Ok::<Option<HfSize>, ()>(h.crop_size)
    &&& size_field(entries, "max_image_size"@) == Ok::<Option<HfSize>, ()>(h.max_image_size)
    &&& any_field(entries, "resample"@) == Ok::<Option<JsonShallowView>, ()>(opt_json_view(h.resample))
    &&& bool_field(entries, "do_center_crop"@) == Ok::<Option<bool>, ()>(h.do_center_crop)
    &&& bool_field(entries, "do_resize"@) == Ok::<Option<bool>, ()>(h.do_resize)
    &&& bool_field(entries, "do_thumbnail"@) == Ok::<Option<bool>, ()>(h.do_thumbnail)
    &&& bool_field(entries, "do_align_long_axis"@) == Ok::<Option<bool>, ()>(h.do_align_long_axis)
    &&& bool_field(entries, "do_image_splitting"@) == Ok::<Option<bool>, ()>(h.do_image_splitting)
    &&& bool_field(entries, "do_pan_and_scan"@) == Ok::<Option<bool>, ()>(h.do_pan_and_scan)
    &&& bool_field(entries, "do_pad"@) == Ok::<Option<bool>, ()>(h.do_pad)
    &&& size_field(entries, "pad_size"@) == Ok::<Option<HfSize>, ()>(h.pad_size)
    &&& usize_field(entries, "pad_to_multiple"@) == Ok::<Option<usize>, ()>(h.pad_to_multiple)
    &&& pairs_field(entries, "image_grid_pinpoints"@) == Ok::<Option<Seq<(usize, usize)>>, ()>(opt_pairs_view(h.image_grid_pinpoints))
    &&& usize_field(entries, "max_image_tiles"@) == Ok::<Option<usize>, ()>(h.max_image_tiles)
    &&& usize_field(entries, "pan_and_scan_min_crop_size"@) == Ok::<Option<usize>, ()>(h.pan_and_scan_min_crop_size)
    &&& usize_field(entries, "pan_and_scan_max_num_crops"@) == Ok::<Option<usize>, ()>(h.pan_and_scan_max_num_crops)
    &&& f64_field(entries, "pan_and_scan_min_ratio_to_activate"@) == Ok::<Option<u64>, ()>(h.pan_and_scan_min_ratio_to_activate)
    &&& usize_field(entries, "min_pixels"@) == Ok::<Option<usize>, ()>(h.min_pixels)
    &&& usize_field(entries, "max_pixels"@) == Ok::<Option<usize>, ()>(h.max_pixels)
    &&& size_field(entries, "patch_size"@) == Ok::<Option<HfSize>, ()>(h.patch_size)
    &&& usize_field(entries, "temporal_patch_size"@) == Ok::<Option<usize>, ()>(h.temporal_patch_size)
    &&& usize_field(entries, "merge_size"@) == Ok::<Option<usize>, ()>(h.merge_size)
    &&& bool_field(entries, "do_rescale"@) == Ok::<Option<bool>, ()>(h.do_rescale)
    &&& f32_field(entries, "rescale_factor"@) == Ok::<Option<u32>, ()>(h.rescale_factor)
    &&& bool_field(entries, "offset"@) == Ok::<Option<bool>, ()>(h.offset)
    &&& bool_field(entries, "do_normalize"@) == Ok::<Option<bool>, ()>(h.do_normalize)
    &&& bool_field(entries, "do_range_check"@) == Ok::<Option<bool>, ()>(h.do_range_check)
    &&& bool_field(entries, "do_binarize"@) == Ok::<Option<bool>, ()>(h.do_binarize)
    &&& bool_field(entries, "do_convert_rgb"@) == Ok::<Option<bool>, ()>(h.do_convert_rgb)
    &&& bool_field(entries, "do_convert_grayscale"@) == Ok::<Option<bool>, ()>(h.do_convert_grayscale)
    &&& usize_field(entries, "vae_scale_factor"@) == Ok::<Option<usize>, ()>(h.vae_scale_factor)
    &&& usize_field(entries, "vae_latent_channels"@) == Ok::<Option<usize>, ()>(h.vae_latent_channels)
    &&& usize_field(entries, "resolution"@) == Ok::<Option<usize>, ()>(h.resolution)
    &&& usize_field(entries, "basesize"@) == Ok::<Option<usize>, ()>(h.basesize)
    &&& string_field(entries, "hdr_transform"@) == Ok::<Option<Seq<char>>, ()>(opt_string_view(h.hdr_transform))
    &&& f32_list_field(entries, "image_mean"@) == Ok::<Option<Seq<u32>>, ()>(opt_list_view(h.image_mean))
    &&& f32_list_field(entries, "image_std"@) == Ok::<Option<Seq<u32>>, ()>(opt_list_view(h.image_std))
}

/// Whether every known field of an object decodes by its type.
pub open spec fn hf_fields_valid(entries: Seq<(Seq<char>, Seq<char>)>) -> bool {
    &&& string_field(entries, "image_processor_type"@) is Ok
    &&& string_field(entries, "processor_class"@) is Ok
    &&& size_field(entries, "size"@) is Ok
    &&& size_field(entries, "crop_size"@) is Ok
    &&& size_field(entries, "max_image_size"@) is Ok
    &&& any_field(entries, "resample"@) is Ok
    &&& bool_field(entries, "do_center_crop"@) is Ok
    &&& bool_field(entries, "do_resize"@) is Ok
    &&& bool_field(entries, "do_thumbnail"@) is Ok
    &&& bool_field(entries, "do_align_long_axis"@) is Ok
    &&& bool_field(entries, "do_image_splitting"@) is Ok
    &&& bool_field(entries, "do_pan_and_scan"@) is Ok
    &&& bool_field(entries, "do_pad"@) is Ok
    &&& size_field(entries, "pad_size"@) is Ok
    &&& usize_field(entries, "pad_to_multiple"@) is Ok
    &&& pairs_field(entries, "image_grid_pinpoints"@) is Ok
    &&& usize_field(entries, "max_image_tiles"@) is Ok
    &&& usize_field(entries, "pan_and_scan_min_crop_size"@) is Ok
    &&& usize_field(entries, "pan_and_scan_max_num_crops"@) is Ok
    &&& f64_field(entries, "pan_and_scan_min_ratio_to_activate"@) is Ok
    &&& usize_field(entries, "min_pixels"@) is Ok
    &&& usize_field(entries, "max_pixels"@) is Ok
    &&& size_field(entries, "patch_size"@) is Ok
    &&& usize_field(entries, "temporal_patch_size"@) is Ok
    &&& usize_field(entries, "merge_size"@) is Ok
    &&& bool_field(entries, "do_rescale"@) is Ok
    &&& f32_field(entries, "rescale_factor"@) is Ok
    &&& bool_field(entries, "offset"@) is Ok
    &&& bool_field(entries, "do_normalize"@) is Ok
    &&& bool_field(entries, "do_range_check"@) is Ok
    &&& bool_field(entries, "do_binarize"@) is Ok
    &&& bool_field(entries, "do_convert_rgb"@) is Ok
    &&& bool_field(entries, "do_convert_grayscale"@) is Ok
    &&& usize_field(entries, "vae_scale_factor"@) is Ok
    &&& usize_field(entries, "vae_latent_channels"@) is Ok
    &&& usize_field(entries, "resolution"@) is Ok
    &&& usize_field(entries, "basesize"@) is Ok
    &&& string_field(entries, "hdr_transform"@) is Ok
    &&& f32_list_field(entries, "image_mean"@) is Ok
    &&& f32_list_field(entries, "image_std"@) is Ok
}

/// The VAE settings a config gives: scale factor, latent channels, resize, filter, normalization, binarization, and RGB or grayscale conversion (neither keeps the default).
pub open spec fn vae_built(h: HfPreprocessorConfig, r: Result<VaeImageProcessorConfig, ProcessorConfigError>) -> bool {
    match spec_conversion(h.do_convert_rgb, false, h.do_convert_grayscale, None) {
        Err(e) => r == Err::<VaeImageProcessorConfig, ProcessorConfigError>(e),
        Ok(v_pixel_format) => r matches Ok(c)
            && c.do_resize == or_default(h.do_resize, true)
            && c.vae_scale_factor == or_default(h.vae_scale_factor, 8)
            && c.vae_latent_channels == or_default(h.vae_latent_channels, 4)
            && c.output_layout == ImageLayout::ChannelsHeightWidth
            && c.resample == resample_or(h.resample, ResizeFilter::Lanczos)
            && c.resize_parity == ResizeParity::Compatibility
            && c.decode_backend == ImageDecodeBackend::ImageCrate
            && c.batch_execution == BatchExecution::Sequential
            && c.pixel_format == v_pixel_format
            && c.do_normalize == or_default(h.do_normalize, true)
            && c.do_binarize == or_default(h.do_binarize, false),
    }
}

/// The BLIP settings a config gives; an absent RGB flag means RGB conversion, and neither conversion means none.
pub open spec fn blip_built(h: HfPreprocessorConfig, r: Result<BlipImageProcessorConfig, ProcessorConfigError>) -> bool {
    match match h.size { Some(s) => spec_size_or_edge(s, "size", ImageSize { height: BLIP_IMAGE_SIZE, width: BLIP_IMAGE_SIZE }), None => Ok(ImageSize { height: BLIP_IMAGE_SIZE, width: BLIP_IMAGE_SIZE }) } {
        Err(e) => r == Err::<BlipImageProcessorConfig, ProcessorConfigError>(e),
        Ok(v_size) => match spec_conversion(h.do_convert_rgb, true, h.do_convert_grayscale, None) {
            Err(e) => r == Err::<BlipImageProcessorConfig, ProcessorConfigError>(e),
            Ok(v_pixel_format) => r matches Ok(c)
                && c.size == v_size
                && c.do_resize == or_default(h.do_resize, true)
                && c.do_center_crop == or_default(h.do_center_crop, true)
                && c.output_layout == ImageLayout::ChannelsHeightWidth
                && c.resize_parity == ResizeParity::Compatibility
                && c.decode_backend == ImageDecodeBackend::ImageCrate
                && c.batch_execution == BatchExecution::Sequential
                && c.pixel_format == v_pixel_format
                && c.do_rescale == or_default(h.do_rescale, true)
                && c.rescale_factor == or_default(h.rescale_factor, DEFAULT_RESCALE_FACTOR)
                && c.do_normalize == or_default(h.do_normalize, true)
                && c.image_mean@ == list_or_default(h.image_mean, spec_clip_image_mean())
                && c.image_std@ == list_or_default(h.image_std, spec_clip_image_std())
                && c.resample == resample_or(h.resample, ResizeFilter::Bicubic),
        },
    }
}

/// The FLUX.2 settings a config gives; an absent RGB flag means RGB conversion, and neither conversion means none.
pub open spec fn flux2_built(h: HfPreprocessorConfig, r: Result<Flux2ImageProcessorConfig, ProcessorConfigError>) -> bool {
    match spec_conversion(h.do_convert_rgb, true, h.do_convert_grayscale, None) {
        Err(e) => r == Err::<Flux2ImageProcessorConfig, ProcessorConfigError>(e),
        Ok(v_pixel_format) => r matches Ok(c)
            && c.do_resize == or_default(h.do_resize, true)
            && c.vae_scale_factor == or_default(h.vae_scale_factor, FLUX2_VAE_SCALE_FACTOR)
            && c.vae_latent_channels == or_default(h.vae_latent_channels, FLUX2_VAE_LATENT_CHANNELS)
            && c.output_layout == ImageLayout::ChannelsHeightWidth
            && c.resample == resample_or(h.resample, ResizeFilter::Lanczos)
            && c.resize_parity == ResizeParity::Compatibility
            && c.decode_backend == ImageDecodeBackend::ImageCrate
            && c.batch_execution == BatchExecution::Sequential
            && c.pixel_format == v_pixel_format
            && c.do_normalize == or_default(h.do_normalize, true)
            && c.do_binarize == or_default(h.do_binarize, false),
    }
}

/// The HunyuanVideo 1.5 settings a config gives; an absent RGB flag means RGB conversion, and neither conversion means none.
pub open spec fn hunyuan_video_15_built(h: HfPreprocessorConfig, r: Result<HunyuanVideo15ImageProcessorConfig, ProcessorConfigError>) -> bool {
    match spec_conversion(h.do_convert_rgb, true, h.do_convert_grayscale, None) {
        Err(e) => r == Err::<HunyuanVideo15ImageProcessorConfig, ProcessorConfigError>(e),
        Ok(v_pixel_format) => r matches Ok(c)
            && c.do_resize == or_default(h.do_resize, true)
            && c.vae_scale_factor == or_default(h.vae_scale_factor, HUNYUAN_VIDEO_15_VAE_SCALE_FACTOR)
            && c.vae_latent_channels == or_default(h.vae_latent_channels, HUNYUAN_VIDEO_15_VAE_LATENT_CHANNELS)
            && c.output_layout == ImageLayout::ChannelsHeightWidth
            && c.resample == resample_or(h.resample, ResizeFilter::Lanczos)
            && c.resize_parity == ResizeParity::Compatibility
            && c.decode_backend == ImageDecodeBackend::ImageCrate
            && c.batch_execution == BatchExecution::Sequential
            && c.pixel_format == v_pixel_format
            && c.do_normalize == or_default(h.do_normalize, true)
            && c.do_binarize == or_default(h.do_binarize, false),
    }
}

/// The VisualCloze settings a config gives; neither conversion means none.
pub open spec fn visual_cloze_built(h: HfPreprocessorConfig, r: Result<VisualClozeProcessorConfig, ProcessorConfigError>) -> bool {
    match spec_conversion(h.do_convert_rgb, false, h.do_convert_grayscale, None) {
        Err(e) => r == Err::<VisualClozeProcessorConfig, ProcessorConfigError>(e),
        Ok(v_pixel_format) => r matches Ok(c)
            && c.resolution == or_default(h.resolution, 384)
            && c.vae_scale_factor == or_default(h.vae_scale_factor, VISUAL_CLOZE_VAE_SCALE_FACTOR)
            && c.vae_latent_channels == or_default(h.vae_latent_channels, VISUAL_CLOZE_VAE_LATENT_CHANNELS)
            && c.do_resize == or_default(h.do_resize, true)
            && c.resample == resample_or(h.resample, ResizeFilter::Lanczos)
            && c.do_normalize == or_default(h.do_normalize, true)
            && c.do_binarize == or_default(h.do_binarize, false)
            && c.pixel_format == v_pixel_format,
    }
}

/// The Marigold settings a config gives.
pub open spec fn marigold_built(h: HfPreprocessorConfig, r: Result<MarigoldImageProcessorConfig, ProcessorConfigError>) -> bool {
    r matches Ok(c)
        && c.vae_scale_factor == or_default(h.vae_scale_factor, MARIGOLD_VAE_SCALE_FACTOR)
        && c.do_normalize == or_default(h.do_normalize, true)
        && c.do_range_check == or_default(h.do_range_check, true)
        && c.output_layout == ImageLayout::ChannelsHeightWidth
        && c.resample == resample_or(h.resample, ResizeFilter::Bilinear)
        && c.resize_parity == ResizeParity::Compatibility
        && c.decode_backend == ImageDecodeBackend::ImageCrate
        && c.batch_execution == BatchExecution::Sequential
}

/// The JoyImage edit settings a config gives; neither conversion keeps the default.
pub open spec fn joy_image_edit_built(h: HfPreprocessorConfig, r: Result<JoyImageEditImageProcessorConfig, ProcessorConfigError>) -> bool {
    match spec_conversion(h.do_convert_rgb, false, h.do_convert_grayscale, None) {
        Err(e) => r == Err::<JoyImageEditImageProcessorConfig, ProcessorConfigError>(e),
        Ok(v_pixel_format) => r matches Ok(c)
            && c.do_resize == or_default(h.do_resize, true)
            && c.vae_scale_factor == or_default(h.vae_scale_factor, 8)
            && c.basesize == or_default(h.basesize, JOY_IMAGE_BASE_SIZE)
            && c.output_layout == ImageLayout::ChannelsHeightWidth
            && c.resample == resample_or(h.resample, ResizeFilter::Bilinear)
            && c.resize_parity == ResizeParity::Compatibility
            && c.decode_backend == ImageDecodeBackend::ImageCrate
            && c.batch_execution == BatchExecution::Sequential
            && c.pixel_format == v_pixel_format
            && c.do_normalize == or_default(h.do_normalize, true)
            && c.do_binarize == or_default(h.do_binarize, false),
    }
}

/// The Wan Animate settings a config gives; neither conversion keeps the default.
pub open spec fn wan_animate_built(h: HfPreprocessorConfig, r: Result<WanAnimateImageProcessorConfig, ProcessorConfigError>) -> bool {
    match spec_conversion(h.do_convert_rgb, false, h.do_convert_grayscale, Some(PixelFormat::Rgb8)) {
        Err(e) => r == Err::<WanAnimateImageProcessorConfig, ProcessorConfigError>(e),
        Ok(v_pixel_format) => r matches Ok(c)
            && c.do_resize == or_default(h.do_resize, true)
            && c.vae_scale_factor == or_default(h.vae_scale_factor, 8)
            && c.vae_latent_channels == or_default(h.vae_latent_channels, 16)
            && c.spatial_patch_size == ImageSize { height: 2, width: 2 }
            && c.output_layout == ImageLayout::ChannelsHeightWidth
            && c.resample == resample_or(h.resample, ResizeFilter::Lanczos)
            && c.decode_backend == ImageDecodeBackend::ImageCrate
            && c.batch_execution == BatchExecution::Sequential
            && c.pixel_format == v_pixel_format
            && (c.fill matches CanvasFill::Constant(v) && v@ == seq![0u8])
            && c.do_normalize == or_default(h.do_normalize, true)
            && c.do_binarize == or_default(h.do_binarize, false),
    }
}

/// The CLIP settings a config gives.
pub open spec fn clip_built(h: HfPreprocessorConfig, r: Result<ClipImageProcessorConfig, ProcessorConfigError>) -> bool {
    match match h.size { Some(s) => spec_size_or_edge(s, "size", ImageSize { height: 224, width: 224 }), None => Ok(ImageSize { height: 224, width: 224 }) } {
        Err(e) => r == Err::<ClipImageProcessorConfig, ProcessorConfigError>(e),
        Ok(v_size) => match match h.crop_size { Some(s) => spec_size_or_edge(s, "crop_size", ImageSize { height: 224, width: 224 }), None => Ok(ImageSize { height: 224, width: 224 }) } {
            Err(e) => r == Err::<ClipImageProcessorConfig, ProcessorConfigError>(e),
            Ok(v_crop_size) => r matches Ok(c)
                && c.size == v_size
                && c.crop_size == v_crop_size
                && c.do_center_crop == or_default(h.do_center_crop, true)
                && c.resample == resample_or(h.resample, ResizeFilter::Bicubic)
                && c.resize_parity == ResizeParity::Compatibility
                && c.output_layout == ImageLayout::ChannelsHeightWidth
                && c.decode_backend == ImageDecodeBackend::ImageCrate
                && c.batch_execution == BatchExecution::Sequential,
        },
    }
}

/// The ViT settings a config gives.
pub open spec fn vit_built(h: HfPreprocessorConfig, r: Result<VitImageProcessorConfig, ProcessorConfigError>) -> bool {
    match match h.size { Some(s) => spec_size_or_edge(s, "size", ImageSize { height: 224, width: 224 }), None => Ok(ImageSize { height: 224, width: 224 }) } {
        Err(e) => r == Err::<VitImageProcessorConfig, ProcessorConfigError>(e),
        Ok(v_size) => match match h.crop_size { Some(s) => spec_size_or_edge(s, "crop_size", ImageSize { height: 224, width: 224 }), None => Ok(ImageSize { height: 224, width: 224 }) } {
            Err(e) => r == Err::<VitImageProcessorConfig, ProcessorConfigError>(e),
            Ok(v_crop_size) => r matches Ok(c)
                && c.size == v_size
                && c.crop_size == v_crop_size
                && c.do_center_crop == or_default(h.do_center_crop, true)
                && c.resample == resample_or(h.resample, ResizeFilter::Bilinear)
                && c.resize_parity == ResizeParity::Compatibility
                && c.output_layout == ImageLayout::ChannelsHeightWidth
                && c.decode_backend == ImageDecodeBackend::ImageCrate
                && c.batch_execution == BatchExecution::Sequential,
        },
    }
}

/// The VideoMAE settings a config gives; the size field must describe a square.
pub open spec fn video_mae_built(h: HfPreprocessorConfig, r: Result<VideoMaeImageProcessorConfig, ProcessorConfigError>) -> bool {
    match match h.size { Some(s) => spec_square_edge(s, "size", 224), None => Ok(224) } {
        Err(e) => r == Err::<VideoMaeImageProcessorConfig, ProcessorConfigError>(e),
        Ok(v_size) => match match h.crop_size { Some(s) => spec_size_or_edge(s, "crop_size", ImageSize { height: 224, width: 224 }), None => Ok(ImageSize { height: 224, width: 224 }) } {
            Err(e) => r == Err::<VideoMaeImageProcessorConfig, ProcessorConfigError>(e),
            Ok(v_crop_size) => r matches Ok(c)
                && c.size == v_size
                && c.crop_size == v_crop_size
                && c.do_resize == or_default(h.do_resize, true)
                && c.do_center_crop == or_default(h.do_center_crop, true)
                && c.do_rescale == or_default(h.do_rescale, true)
                && c.rescale_factor == or_default(h.rescale_factor, DEFAULT_RESCALE_FACTOR)
                && c.do_normalize == or_default(h.do_normalize, true)
                && c.image_mean@ == list_or_default(h.image_mean, spec_imagenet_image_mean())
                && c.image_std@ == list_or_default(h.image_std, spec_imagenet_image_std())
                && c.resample == resample_or(h.resample, ResizeFilter::Bilinear),
        },
    }
}

/// The ViViT settings a config gives; the size field must describe a square.
pub open spec fn vivit_built(h: HfPreprocessorConfig, r: Result<VivitImageProcessorConfig, ProcessorConfigError>) -> bool {
    match match h.size { Some(s) => spec_square_edge(s, "size", 256), None => Ok(256) } {
        Err(e) => r == Err::<VivitImageProcessorConfig, ProcessorConfigError>(e),
        Ok(v_size) => match match h.crop_size { Some(s) => spec_size_or_edge(s, "crop_size", ImageSize { height: 224, width: 224 }), None => Ok(ImageSize { height: 224, width: 224 }) } {
            Err(e) => r == Err::<VivitImageProcessorConfig, ProcessorConfigError>(e),
            Ok(v_crop_size) => r matches Ok(c)
                && c.size == v_size
                && c.crop_size == v_crop_size
                && c.do_resize == or_default(h.do_resize, true)
                && c.do_center_crop == or_default(h.do_center_crop, true)
                && c.do_rescale == or_default(h.do_rescale, true)
                && c.rescale_factor == or_default(h.rescale_factor, SIGNED_RESCALE_FACTOR)
                && c.offset == or_default(h.offset, true)
                && c.do_normalize == or_default(h.do_normalize, true)
                && c.image_mean@ == list_or_default(h.image_mean, spec_standard_image_mean())
                && c.image_std@ == list_or_default(h.image_std, spec_standard_image_std())
                && c.resample == resample_or(h.resample, ResizeFilter::Bilinear),
        },
    }
}

/// The Pixtral settings a config gives: `size` sets the largest size.
pub open spec fn pixtral_built(h: HfPreprocessorConfig, r: Result<PixtralImageProcessorConfig, ProcessorConfigError>) -> bool {
    match match h.size { Some(s) => spec_size_or_edge(s, "size", ImageSize { height: 1024, width: 1024 }), None => Ok(ImageSize { height: 1024, width: 1024 }) } {
        Err(e) => r == Err::<PixtralImageProcessorConfig, ProcessorConfigError>(e),
        Ok(v_max_size) => match match h.patch_size { Some(s) => spec_size_or_edge(s, "patch_size", ImageSize { height: 16, width: 16 }), None => Ok(ImageSize { height: 16, width: 16 }) } {
            Err(e) => r == Err::<PixtralImageProcessorConfig, ProcessorConfigError>(e),
            Ok(v_patch_size) => r matches Ok(c)
                && c.max_size == v_max_size
                && c.patch_size == v_patch_size
                && c.do_rescale == or_default(h.do_rescale, true)
                && c.rescale_factor == or_default(h.rescale_factor, DEFAULT_RESCALE_FACTOR)
                && c.do_normalize == or_default(h.do_normalize, true)
                && c.image_mean@ == list_or_default(h.image_mean, spec_clip_image_mean())
                && c.image_std@ == list_or_default(h.image_std, spec_clip_image_std())
                && c.resample == resample_or(h.resample, ResizeFilter::Bicubic),
        },
    }
}

/// The Idefics3 settings a config gives: `size` and `max_image_size` must describe squares.
pub open spec fn idefics3_built(h: HfPreprocessorConfig, r: Result<Idefics3ImageProcessorConfig, ProcessorConfigError>) -> bool {
    match match h.size { Some(s) => spec_square_edge(s, "size", 1456), None => Ok(1456) } {
        Err(e) => r == Err::<Idefics3ImageProcessorConfig, ProcessorConfigError>(e),
        Ok(v_longest_edge) => match match h.max_image_size { Some(s) => spec_square_edge(s, "max_image_size", 364), None => Ok(364) } {
            Err(e) => r == Err::<Idefics3ImageProcessorConfig, ProcessorConfigError>(e),
            Ok(v_max_image_size) => r matches Ok(c)
                && c.longest_edge == v_longest_edge
                && c.max_image_size == v_max_image_size
                && c.do_resize == or_default(h.do_resize, true)
                && c.do_image_splitting == or_default(h.do_image_splitting, true)
                && c.do_pad == or_default(h.do_pad, true)
                && c.do_rescale == or_default(h.do_rescale, true)
                && c.rescale_factor == or_default(h.rescale_factor, DEFAULT_RESCALE_FACTOR)
                && c.do_normalize == or_default(h.do_normalize, true)
                && c.image_mean@ == list_or_default(h.image_mean, spec_standard_image_mean())
                && c.image_std@ == list_or_default(h.image_std, spec_standard_image_std())
                && c.resample == resample_or(h.resample, ResizeFilter::Lanczos)
                && c.resize_parity == ResizeParity::Compatibility
                && c.decode_backend == ImageDecodeBackend::ImageCrate
                && c.batch_execution == BatchExecution::Sequential,
        },
    }
}

/// The Gemma 3 settings a config gives.
pub open spec fn gemma3_built(h: HfPreprocessorConfig, r: Result<Gemma3ImageProcessorConfig, ProcessorConfigError>) -> bool {
    match match h.size { Some(s) => spec_size_or_edge(s, "size", ImageSize { height: 896, width: 896 }), None => Ok(ImageSize { height: 896, width: 896 }) } {
        Err(e) => r == Err::<Gemma3ImageProcessorConfig, ProcessorConfigError>(e),
        Ok(v_size) => r matches Ok(c)
            && c.size == v_size
            && c.do_resize == or_default(h.do_resize, true)
            && c.do_pan_and_scan == or_default(h.do_pan_and_scan, false)
            && c.pan_and_scan_min_crop_size == or_default(h.pan_and_scan_min_crop_size, 256)
            && c.pan_and_scan_max_num_crops == or_default(h.pan_and_scan_max_num_crops, 4)
            && c.pan_and_scan_min_ratio_to_activate == or_default(h.pan_and_scan_min_ratio_to_activate, GEMMA3_MIN_RATIO_TO_ACTIVATE)
            && c.do_rescale == or_default(h.do_rescale, true)
            && c.rescale_factor == or_default(h.rescale_factor, DEFAULT_RESCALE_FACTOR)
            && c.do_normalize == or_default(h.do_normalize, true)
            && c.image_mean@ == list_or_default(h.image_mean, spec_standard_image_mean())
            && c.image_std@ == list_or_default(h.image_std, spec_standard_image_std())
            && c.resample == resample_or(h.resample, ResizeFilter::Bilinear)
            && c.resize_parity == ResizeParity::Compatibility
            && c.decode_backend == ImageDecodeBackend::ImageCrate
            && c.batch_execution == BatchExecution::Sequential,
    }
}

/// The Mllama settings a config gives: `size` sets the square tile edge.
pub open spec fn mllama_built(h: HfPreprocessorConfig, r: Result<MllamaImageProcessorConfig, ProcessorConfigError>) -> bool {
    match match h.size { Some(s) => spec_square_edge(s, "size", 560), None => Ok(560) } {
        Err(e) => r == Err::<MllamaImageProcessorConfig, ProcessorConfigError>(e),
        Ok(v_tile_size) => r matches Ok(c)
            && c.tile_size == v_tile_size
            && c.max_image_tiles == or_default(h.max_image_tiles, 4)
            && c.do_resize == or_default(h.do_resize, true)
            && c.do_pad == or_default(h.do_pad, true)
            && c.do_rescale == or_default(h.do_rescale, true)
            && c.rescale_factor == or_default(h.rescale_factor, DEFAULT_RESCALE_FACTOR)
            && c.do_normalize == or_default(h.do_normalize, true)
            && c.image_mean@ == list_or_default(h.image_mean, spec_standard_image_mean())
            && c.image_std@ == list_or_default(h.image_std, spec_standard_image_std())
            && c.resample == resample_or(h.resample, ResizeFilter::Bilinear)
            && c.resize_parity == ResizeParity::Compatibility
            && c.decode_backend == ImageDecodeBackend::ImageCrate
            && c.batch_execution == BatchExecution::Sequential,
    }
}

/// The SAM settings a config gives.
pub open spec fn sam_built(h: HfPreprocessorConfig, r: Result<SamImageProcessorConfig, ProcessorConfigError>) -> bool {
    match match h.size { Some(s) => spec_size_or_edge(s, "size", ImageSize { height: 1024, width: 1024 }), None => Ok(ImageSize { height: 1024, width: 1024 }) } {
        Err(e) => r == Err::<SamImageProcessorConfig, ProcessorConfigError>(e),
        Ok(v_image_size) => r matches Ok(c)
            && c.image_size == v_image_size
            && c.output_layout == ImageLayout::ChannelsHeightWidth
            && c.resample == resample_or(h.resample, ResizeFilter::Bilinear)
            && c.resize_parity == ResizeParity::Compatibility
            && c.decode_backend == ImageDecodeBackend::ImageCrate
            && c.batch_execution == BatchExecution::Sequential,
    }
}

/// The document and OCR settings a config gives.
pub open spec fn document_ocr_built(h: HfPreprocessorConfig, r: Result<DocumentOcrImageProcessorConfig, ProcessorConfigError>) -> bool {
    match match h.size { Some(s) => spec_size_or_edge(s, "size", ImageSize { height: 2560, width: 1920 }), None => Ok(ImageSize { height: 2560, width: 1920 }) } {
        Err(e) => r == Err::<DocumentOcrImageProcessorConfig, ProcessorConfigError>(e),
        Ok(v_image_size) => r matches Ok(c)
            && c.image_size == v_image_size
            && c.do_resize == or_default(h.do_resize, true)
            && c.do_thumbnail == or_default(h.do_thumbnail, true)
            && c.do_align_long_axis == or_default(h.do_align_long_axis, false)
            && c.do_pad == or_default(h.do_pad, true)
            && c.do_rescale == or_default(h.do_rescale, true)
            && c.rescale_factor == or_default(h.rescale_factor, DEFAULT_RESCALE_FACTOR)
            && c.do_normalize == or_default(h.do_normalize, true)
            && c.image_mean@ == list_or_default(h.image_mean, spec_standard_image_mean())
            && c.image_std@ == list_or_default(h.image_std, spec_standard_image_std())
            && c.resample == resample_or(h.resample, ResizeFilter::Bilinear),
    }
}

/// The Qwen-VL settings a config gives: a patch size must describe a square, and
/// the resize factor is the patch size times the merge size, recomputed after each
/// of them is read.
pub open spec fn qwen_vl_built(h: HfPreprocessorConfig, r: Result<QwenVlImageProcessorConfig, ProcessorConfigError>) -> bool {
    let patch_step: Result<(usize, usize), ProcessorConfigError> = match h.patch_size {
        Some(s) => match spec_square_edge(s, "patch_size", 14) {
            Err(e) => Err(e),
            Ok(p) => match spec_hf_factor(p, 2, "patch_size") {
                Err(e) => Err(e),
                Ok(f) => Ok((p, f)),
            },
        },
        None => Ok((14usize, 28usize)),
    };
    match patch_step {
        Err(e) => r == Err::<QwenVlImageProcessorConfig, ProcessorConfigError>(e),
        Ok((patch, patch_factor)) => {
            let merge_step: Result<(usize, usize), ProcessorConfigError> = match h.merge_size {
                Some(m) => match spec_hf_factor(patch, m, "merge_size") {
                    Err(e) => Err(e),
                    Ok(f) => Ok((m, f)),
                },
                None => Ok((2usize, patch_factor)),
            };
            match merge_step {
                Err(e) => r == Err::<QwenVlImageProcessorConfig, ProcessorConfigError>(e),
                Ok((merge, factor)) => r matches Ok(c)
                    && c.resize_limits == (ResizeLimits {
                        factor,
                        min_pixels: or_default(h.min_pixels, 3136),
                        max_pixels: or_default(h.max_pixels, 1003520),
                    })
                    && c.patch_size == patch
                    && c.temporal_patch_size == or_default(h.temporal_patch_size, 2)
                    && c.merge_size == merge
                    && c.do_rescale == or_default(h.do_rescale, true)
                    && c.rescale_factor == or_default(h.rescale_factor, DEFAULT_RESCALE_FACTOR)
                    && c.do_normalize == or_default(h.do_normalize, true)
                    && c.image_mean@ == list_or_default(h.image_mean, spec_clip_image_mean())
                    && c.image_std@ == list_or_default(h.image_std, spec_clip_image_std())
                    && c.resample == resample_or(h.resample, ResizeFilter::Bicubic)
                    && c.resize_parity == ResizeParity::Compatibility
                    && c.decode_backend == ImageDecodeBackend::ImageCrate
                    && c.batch_execution == BatchExecution::Sequential,
            }
        },
    }
}

/// The any-resolution grids that `[height, width]` pairs describe; every edge must
/// be non-zero.
pub open spec fn spec_pinpoints(pairs: Seq<(usize, usize)>) -> Result<Seq<ImageSize>, ProcessorConfigError> {
    if forall|i: int| 0 <= i < pairs.len() ==> (#[trigger] pairs[i]).0 > 0 && pairs[i].1 > 0 {
        Ok(Seq::new(pairs.len(), |i: int| ImageSize { height: pairs[i].0, width: pairs[i].1 }))
    } else {
        Err(ProcessorConfigError::InvalidSize { field: "image_grid_pinpoints" })
    }
}

/// Returns the any-resolution grids that `[height, width]` pairs describe.
pub fn hf_pinpoints(pairs: &Vec<(usize, usize)>) -> (r: Result<Vec<ImageSize>, ProcessorConfigError>)
    ensures
        match spec_pinpoints(pairs@) {
            Ok(sizes) => r matches Ok(v) && v@ == sizes,
            Err(e) => r == Err::<Vec<ImageSize>, ProcessorConfigError>(e),
        },
{
    let mut sizes: Vec<ImageSize> = Vec::new();
    let mut i: usize = 0;
    while i < pairs.len()
        invariant
            i <= pairs@.len(),
            sizes@.len() == i,
            forall|j: int| 0 <= j < i ==> (#[trigger] pairs@[j]).0 > 0 && pairs@[j].1 > 0,
            forall|j: int| 0 <= j < i ==> sizes@[j] == (ImageSize { height: pairs@[j].0, width: pairs@[j].1 }),
        decreases pairs@.len() - i,
    {
        let (height, width) = pairs[i];
        match ImageSize::new(height, width) {
            Ok(size) => sizes.push(size),
            Err(_) => return Err(ProcessorConfigError::InvalidSize { field: "image_grid_pinpoints" }),
        }
        i = i + 1;
    }
    assert(sizes@ =~= Seq::new(pairs@.len(), |j: int| ImageSize { height: pairs@[j].0, width: pairs@[j].1 }));
    Ok(sizes)
}

/// The LLaVA-NeXT settings a config gives.
pub open spec fn llava_next_built(h: HfPreprocessorConfig, r: Result<LlavaNextImageProcessorConfig, ProcessorConfigError>) -> bool {
    match match h.size { Some(s) => spec_size_or_edge(s, "size", ImageSize { height: 336, width: 336 }), None => Ok(ImageSize { height: 336, width: 336 }) } {
        Err(e) => r == Err::<LlavaNextImageProcessorConfig, ProcessorConfigError>(e),
        Ok(size) => match match h.crop_size { Some(s) => spec_size_or_edge(s, "crop_size", ImageSize { height: 336, width: 336 }), None => Ok(ImageSize { height: 336, width: 336 }) } {
            Err(e) => r == Err::<LlavaNextImageProcessorConfig, ProcessorConfigError>(e),
            Ok(crop_size) => match match h.image_grid_pinpoints { Some(p) => spec_pinpoints(p@), None => Ok(spec_llava_next_pinpoints()) } {
                Err(e) => r == Err::<LlavaNextImageProcessorConfig, ProcessorConfigError>(e),
                Ok(pinpoints) => r matches Ok(c)
                    && c.size == size
                    && c.crop_size == crop_size
                    && c.image_grid_pinpoints@ == pinpoints
                    && c.do_center_crop == or_default(h.do_center_crop, true)
                    && c.do_pad == or_default(h.do_pad, true)
                    && c.do_rescale == or_default(h.do_rescale, true)
                    && c.rescale_factor == or_default(h.rescale_factor, DEFAULT_RESCALE_FACTOR)
                    && c.do_normalize == or_default(h.do_normalize, true)
                    && c.image_mean@ == list_or_default(h.image_mean, spec_clip_image_mean())
                    && c.image_std@ == list_or_default(h.image_std, spec_clip_image_std())
                    && c.resample == resample_or(h.resample, ResizeFilter::Bicubic),
            },
        },
    }
}

/// The DETR settings a config gives: `size` sets the shortest-edge target (when it
/// names one) and the fixed size, and `pad_size` defaults to the fixed size.
pub open spec fn detr_built(h: HfPreprocessorConfig, r: Result<DetrImageProcessorConfig, ProcessorConfigError>) -> bool {
    let default_resize = ShortestEdgeResizeConfig { shortest_edge: 800, longest_edge: Some(1333) };
    let size_step: Result<(ShortestEdgeResizeConfig, ImageSize), ProcessorConfigError> = match h.size {
        Some(s) => match spec_shortest_edge_resize(s, "size") {
            Err(e) => Err(e),
            Ok(o) => match spec_size_or_edge(s, "size", ImageSize { height: 800, width: 800 }) {
                Err(e) => Err(e),
                Ok(image_size) => Ok((or_default(o, default_resize), image_size)),
            },
        },
        None => Ok((default_resize, ImageSize { height: 800, width: 800 })),
    };
    match size_step {
        Err(e) => r == Err::<DetrImageProcessorConfig, ProcessorConfigError>(e),
        Ok((resize_size, image_size)) => {
            let pad_step: Result<Option<ImageSize>, ProcessorConfigError> = match h.pad_size {
                Some(p) => match spec_size_or_edge(p, "pad_size", image_size) {
                    Err(e) => Err(e),
                    Ok(pad) => Ok(Some(pad)),
                },
                None => Ok(None),
            };
            match pad_step {
                Err(e) => r == Err::<DetrImageProcessorConfig, ProcessorConfigError>(e),
                Ok(pad_size) => r == Ok::<DetrImageProcessorConfig, ProcessorConfigError>(DetrImageProcessorConfig {
                    image_size,
                    resize_size,
                    do_pad: or_default(h.do_pad, true),
                    pad_size,
                    pad_to_multiple: h.pad_to_multiple,
                    output_layout: ImageLayout::ChannelsHeightWidth,
                    resample: resample_or(h.resample, ResizeFilter::Bilinear),
                    resize_parity: ResizeParity::Compatibility,
                    decode_backend: ImageDecodeBackend::ImageCrate,
                    batch_execution: BatchExecution::Sequential,
                }),
            }
        },
    }
}

/// The LTX-2 video HDR settings a config gives; an HDR transform other than
/// `logc3` is rejected.
pub open spec fn ltx2_video_hdr_built(h: HfPreprocessorConfig, r: Result<Ltx2VideoHdrProcessorConfig, ProcessorConfigError>) -> bool {
    if h.hdr_transform matches Some(t) && t@ != "logc3"@ {
        r matches Err(ProcessorConfigError::UnsupportedHdrTransform(s)) && s@ == h.hdr_transform->0@
    } else {
        r == Ok::<Ltx2VideoHdrProcessorConfig, ProcessorConfigError>(Ltx2VideoHdrProcessorConfig {
            do_resize: or_default(h.do_resize, true),
            vae_scale_factor: or_default(h.vae_scale_factor, 32),
            output_layout: VideoLayout::FramesChannelsHeightWidth,
            resample: resample_or(h.resample, ResizeFilter::Bilinear),
            resize_parity: ResizeParity::Compatibility,
            decode_backend: ImageDecodeBackend::ImageCrate,
            batch_execution: BatchExecution::Sequential,
        })
    }
}

impl HfPreprocessorConfig {
    /// Reads the known fields of a JSON object's entries; unknown keys are ignored.
    pub fn from_json_entries(entries: &[(String, String)]) -> (r: Result<HfPreprocessorConfig, ProcessorConfigError>)
        ensures
            match r {
                Ok(h) => hf_fields_read(entries_view(entries@), h),
                Err(e) => e == ProcessorConfigError::InvalidJson && !hf_fields_valid(entries_view(entries@)),
            },
    {
        let image_processor_type = match find_entry(entries, "image_processor_type") {
            Some(text) => match decode_string(text.as_str()) {
                Ok(v) => v,
                Err(()) => return Err(ProcessorConfigError::InvalidJson),
            },
            None => None,
        };
        let processor_class = match find_entry(entries, "processor_class") {
            Some(text) => match decode_string(text.as_str()) {
                Ok(v) => v,
                Err(()) => return Err(ProcessorConfigError::InvalidJson),
            },
            None => None,
        };
        let size = match find_entry(entries, "size") {
            Some(text) => match decode_size(text.as_str()) {
                Ok(v) => v,
                Err(()) => return Err(ProcessorConfigError::InvalidJson),
            },
            None => None,
        };
        let crop_size = match find_entry(entries, "crop_size") {
            Some(text) => match decode_size(text.as_str()) {
                Ok(v) => v,
                Err(()) => return Err(ProcessorConfigError::InvalidJson),
            },
            None => None,
        };
        let max_image_size = match find_entry(entries, "max_image_size") {
            Some(text) => match decode_size(text.as_str()) {
                Ok(v) => v,
                Err(()) => return Err(ProcessorConfigError::InvalidJson),
            },
            None => None,
        };
        let resample = match find_entry(entries, "resample") {
            Some(text) => match decode_any(text.as_str()) {
                Ok(v) => v,
                Err(()) => return Err(ProcessorConfigError::InvalidJson),
            },
            None => None,
        };
        let do_center_crop = match find_entry(entries, "do_center_crop") {
            Some(text) => match decode_bool(text.as_str()) {
                Ok(v) => v,
                Err(()) => return Err(ProcessorConfigError::InvalidJson),
            },
            None => None,
        };
        let do_resize = match find_entry(entries, "do_resize") {
            Some(text) => match decode_bool(text.as_str()) {
                Ok(v) => v,
                Err(()) => return Err(ProcessorConfigError::InvalidJson),
            },
            None => None,
        };
        let do_thumbnail = match find_entry(entries, "do_thumbnail") {
            Some(text) => match decode_bool(text.as_str()) {
                Ok(v) => v,
                Err(()) => return Err(ProcessorConfigError::InvalidJson),
            },
            None => None,
        };
        let do_align_long_axis = match find_entry(entries, "do_align_long_axis") {
            Some(text) => match decode_bool(text.as_str()) {
                Ok(v) => v,
                Err(()) => return Err(ProcessorConfigError::InvalidJson),
            },
            None => None,
        };
        let do_image_splitting = match find_entry(entries, "do_image_splitting") {
            Some(text) => match decode_bool(text.as_str()) {
                Ok(v) => v,
                Err(()) => return Err(ProcessorConfigError::InvalidJson),
            },
            None => None,
        };
        let do_pan_and_scan = match find_entry(entries, "do_pan_and_scan") {
            Some(text) => match decode_bool(text.as_str()) {
                Ok(v) => v,
                Err(()) => return Err(ProcessorConfigError::InvalidJson),
            },
            None => None,
        };
        let do_pad = match find_entry(entries, "do_pad") {
            Some(text) => match decode_bool(text.as_str()) {
                Ok(v) => v,
                Err(()) => return Err(ProcessorConfigError::InvalidJson),
            },
            None => None,
        };
        let pad_size = match find_entry(entries, "pad_size") {
            Some(text) => match decode_size(text.as_str()) {
                Ok(v) => v,
                Err(()) => return Err(ProcessorConfigError::InvalidJson),
            },
            None => None,
        };
        let pad_to_multiple = match find_entry(entries, "pad_to_multiple") {
            Some(text) => match decode_usize(text.as_str()) {
                Ok(v) => v,
                Err(()) => return Err(ProcessorConfigError::InvalidJson),
            },
            None => None,
        };
        let image_grid_pinpoints = match find_entry(entries, "image_grid_pinpoints") {
            Some(text) => match decode_pairs(text.as_str()) {
                Ok(v) => v,
                Err(()) => return Err(ProcessorConfigError::InvalidJson),
            },
            None => None,
        };
        let max_image_tiles = match find_entry(entries, "max_image_tiles") {
            Some(text) => match decode_usize(text.as_str()) {
                Ok(v) => v,
                Err(()) => return Err(ProcessorConfigError::InvalidJson),
            },
            None => None,
        };
        let pan_and_scan_min_crop_size = match find_entry(entries, "pan_and_scan_min_crop_size") {
            Some(text) => match decode_usize(text.as_str()) {
                Ok(v) => v,
                Err(()) => return Err(ProcessorConfigError::InvalidJson),
            },
            None => None,
        };
        let pan_and_scan_max_num_crops = match find_entry(entries, "pan_and_scan_max_num_crops") {
            Some(text) => match decode_usize(text.as_str()) {
                Ok(v) => v,
                Err(()) => return Err(ProcessorConfigError::InvalidJson),
            },
            None => None,
        };
        let pan_and_scan_min_ratio_to_activate = match find_entry(entries, "pan_and_scan_min_ratio_to_activate") {
            Some(text) => match decode_f64(text.as_str()) {
                Ok(v) => v,
                Err(()) => return Err(ProcessorConfigError::InvalidJson),
            },
            None => None,
        };
        let min_pixels = match find_entry(entries, "min_pixels") {
            Some(text) => match decode_usize(text.as_str()) {
                Ok(v) => v,
                Err(()) => return Err(ProcessorConfigError::InvalidJson),
            },
            None => None,
        };
        let max_pixels = match find_entry(entries, "max_pixels") {
            Some(text) => match decode_usize(text.as_str()) {
                Ok(v) => v,
                Err(()) => return Err(ProcessorConfigError::InvalidJson),
            },
            None => None,
        };
        let patch_size = match find_entry(entries, "patch_size") {
            Some(text) => match decode_size(text.as_str()) {
                Ok(v) => v,
                Err(()) => return Err(ProcessorConfigError::InvalidJson),
            },
            None => None,
        };
        let temporal_patch_size = match find_entry(entries, "temporal_patch_size") {
            Some(text) => match decode_usize(text.as_str()) {
                Ok(v) => v,
                Err(()) => return Err(ProcessorConfigError::InvalidJson),
            },
            None => None,
        };
        let merge_size = match find_entry(entries, "merge_size") {
            Some(text) => match decode_usize(text.as_str()) {
                Ok(v) => v,
                Err(()) => return Err(ProcessorConfigError::InvalidJson),
            },
            None => None,
        };
        let do_rescale = match find_entry(entries, "do_rescale") {
            Some(text) => match decode_bool(text.as_str()) {
                Ok(v) => v,
                Err(()) => return Err(ProcessorConfigError::InvalidJson),
            },
            None => None,
        };
        let rescale_factor = match find_entry(entries, "rescale_factor") {
            Some(text) => match decode_f32(text.as_str()) {
                Ok(v) => v,
                Err(()) => return Err(ProcessorConfigError::InvalidJson),
            },
            None => None,
        };
        let offset = match find_entry(entries, "offset") {
            Some(text) => match decode_bool(text.as_str()) {
                Ok(v) => v,
                Err(()) => return Err(ProcessorConfigError::InvalidJson),
            },
            None => None,
        };
        let do_normalize = match find_entry(entries, "do_normalize") {
            Some(text) => match decode_bool(text.as_str()) {
                Ok(v) => v,
                Err(()) => return Err(ProcessorConfigError::InvalidJson),
            },
            None => None,
        };
        let do_range_check = match find_entry(entries, "do_range_check") {
            Some(text) => match decode_bool(text.as_str()) {
                Ok(v) => v,
                Err(()) => return Err(ProcessorConfigError::InvalidJson),
            },
            None => None,
        };
        let do_binarize = match find_entry(entries, "do_binarize") {
            Some(text) => match decode_bool(text.as_str()) {
                Ok(v) => v,
                Err(()) => return Err(ProcessorConfigError::InvalidJson),
            },
            None => None,
        };
        let do_convert_rgb = match find_entry(entries, "do_convert_rgb") {
            Some(text) => match decode_bool(text.as_str()) {
                Ok(v) => v,
                Err(()) => return Err(ProcessorConfigError::InvalidJson),
            },
            None => None,
        };
        let do_convert_grayscale = match find_entry(entries, "do_convert_grayscale") {
            Some(text) => match decode_bool(text.as_str()) {
                Ok(v) => v,
                Err(()) => return Err(ProcessorConfigError::InvalidJson),
            },
            None => None,
        };
        let vae_scale_factor = match find_entry(entries, "vae_scale_factor") {
            Some(text) => match decode_usize(text.as_str()) {
                Ok(v) => v,
                Err(()) => return Err(ProcessorConfigError::InvalidJson),
            },
            None => None,
        };
        let vae_latent_channels = match find_entry(entries, "vae_latent_channels") {
            Some(text) => match decode_usize(text.as_str()) {
                Ok(v) => v,
                Err(()) => return Err(ProcessorConfigError::InvalidJson),
            },
            None => None,
        };
        let resolution = match find_entry(entries, "resolution") {
            Some(text) => match decode_usize(text.as_str()) {
                Ok(v) => v,
                Err(()) => return Err(ProcessorConfigError::InvalidJson),
            },
            None => None,
        };
        let basesize = match find_entry(entries, "basesize") {
            Some(text) => match decode_usize(text.as_str()) {
                Ok(v) => v,
                Err(()) => return Err(ProcessorConfigError::InvalidJson),
            },
            None => None,
        };
        let hdr_transform = match find_entry(entries, "hdr_transform") {
            Some(text) => match decode_string(text.as_str()) {
                Ok(v) => v,
                Err(()) => return Err(ProcessorConfigError::InvalidJson),
            },
            None => None,
        };
        let image_mean = match find_entry(entries, "image_mean") {
            Some(text) => match decode_f32_list(text.as_str()) {
                Ok(v) => v,
                Err(()) => return Err(ProcessorConfigError::InvalidJson),
            },
            None => None,
        };
        let image_std = match find_entry(entries, "image_std") {
            Some(text) => match decode_f32_list(text.as_str()) {
                Ok(v) => v,
                Err(()) => return Err(ProcessorConfigError::InvalidJson),
            },
            None => None,
        };
        Ok(HfPreprocessorConfig {
            image_processor_type,
            processor_class,
            size,
            crop_size,
            max_image_size,
            resample,
            do_center_crop,
            do_resize,
            do_thumbnail,
            do_align_long_axis,
            do_image_splitting,
            do_pan_and_scan,
            do_pad,
            pad_size,
            pad_to_multiple,
            image_grid_pinpoints,
            max_image_tiles,
            pan_and_scan_min_crop_size,
            pan_and_scan_max_num_crops,
            pan_and_scan_min_ratio_to_activate,
            min_pixels,
            max_pixels,
            patch_size,
            temporal_patch_size,
            merge_size,
            do_rescale,
            rescale_factor,
            offset,
            do_normalize,
            do_range_check,
            do_binarize,
            do_convert_rgb,
            do_convert_grayscale,
            vae_scale_factor,
            vae_latent_channels,
            resolution,
            basesize,
            hdr_transform,
            image_mean,
            image_std,
        })
    }

    /// Builds the VAE processor config from these settings, with the family's defaults for missing fields.
    pub fn vae_config(&self) -> (r: Result<VaeImageProcessorConfig, ProcessorConfigError>)
        ensures
            vae_built(*self, r),
    {
        let mut c = VaeImageProcessorConfig::default();
        if let Some(v) = self.vae_scale_factor {
            c.vae_scale_factor = v;
        }
        if let Some(v) = self.vae_latent_channels {
            c.vae_latent_channels = v;
        }
        if let Some(v) = self.do_resize {
            c.do_resize = v;
        }
        if let Some(v) = &self.resample {
            c.resample = parse_hf_resample(v, c.resample);
        }
        if let Some(v) = self.do_normalize {
            c.do_normalize = v;
        }
        if let Some(v) = self.do_binarize {
            c.do_binarize = v;
        }
        c.pixel_format = match pixel_format_conversion(self.do_convert_rgb, false, self.do_convert_grayscale, c.pixel_format) {
            Ok(v) => v,
            Err(e) => return Err(e),
        };
        Ok(c)
    }

    /// Builds the BLIP processor config from these settings, with the family's defaults for missing fields.
    pub fn blip_config(&self) -> (r: Result<BlipImageProcessorConfig, ProcessorConfigError>)
        ensures
            blip_built(*self, r),
    {
        let mut c = BlipImageProcessorConfig::default();
        if let Some(s) = &self.size {
            c.size = match s.image_size_or_edge("size", c.size) {
                Ok(v) => v,
                Err(e) => return Err(e),
            };
        }
        if let Some(v) = self.do_resize {
            c.do_resize = v;
        }
        if let Some(v) = self.do_center_crop {
            c.do_center_crop = v;
        }
        if let Some(v) = self.do_rescale {
            c.do_rescale = v;
        }
        if let Some(v) = self.rescale_factor {
            c.rescale_factor = v;
        }
        if let Some(v) = self.do_normalize {
            c.do_normalize = v;
        }
        if let Some(v) = &self.image_mean {
            c.image_mean = copy_values(v);
        }
        if let Some(v) = &self.image_std {
            c.image_std = copy_values(v);
        }
        if let Some(v) = &self.resample {
            c.resample = parse_hf_resample(v, c.resample);
        }
        c.pixel_format = match pixel_format_conversion(self.do_convert_rgb, true, self.do_convert_grayscale, None) {
            Ok(v) => v,
            Err(e) => return Err(e),
        };
        Ok(c)
    }

    /// Builds the FLUX.2 processor config from these settings, with the family's defaults for missing fields.
    pub fn flux2_config(&self) -> (r: Result<Flux2ImageProcessorConfig, ProcessorConfigError>)
        ensures
            flux2_built(*self, r),
    {
        let mut c = Flux2ImageProcessorConfig::default();
        if let Some(v) = self.vae_scale_factor {
            c.vae_scale_factor = v;
        }
        if let Some(v) = self.vae_latent_channels {
            c.vae_latent_channels = v;
        }
        if let Some(v) = self.do_resize {
            c.do_resize = v;
        }
        if let Some(v) = &self.resample {
            c.resample = parse_hf_resample(v, c.resample);
        }
        if let Some(v) = self.do_normalize {
            c.do_normalize = v;
        }
        if let Some(v) = self.do_binarize {
            c.do_binarize = v;
        }
        c.pixel_format = match pixel_format_conversion(self.do_convert_rgb, true, self.do_convert_grayscale, None) {
            Ok(v) => v,
            Err(e) => return Err(e),
        };
        Ok(c)
    }

    /// Builds the HunyuanVideo 1.5 processor config from these settings, with the family's defaults for missing fields.
    pub fn hunyuan_video_15_config(&self) -> (r: Result<HunyuanVideo15ImageProcessorConfig, ProcessorConfigError>)
        ensures
            hunyuan_video_15_built(*self, r),
    {
        let mut c = HunyuanVideo15ImageProcessorConfig::default();
        if let Some(v) = self.vae_scale_factor {
            c.vae_scale_factor = v;
        }
        if let Some(v) = self.vae_latent_channels {
            c.vae_latent_channels = v;
        }
        if let Some(v) = self.do_resize {
            c.do_resize = v;
        }
        if let Some(v) = &self.resample {
            c.resample = parse_hf_resample(v, c.resample);
        }
        if let Some(v) = self.do_normalize {
            c.do_normalize = v;
        }
        if let Some(v) = self.do_binarize {
            c.do_binarize = v;
        }
        c.pixel_format = match pixel_format_conversion(self.do_convert_rgb, true, self.do_convert_grayscale, None) {
            Ok(v) => v,
            Err(e) => return Err(e),
        };
        Ok(c)
    }

    /// Builds the VisualCloze processor config from these settings, with the family's defaults for missing fields.
    pub fn visual_cloze_config(&self) -> (r: Result<VisualClozeProcessorConfig, ProcessorConfigError>)
        ensures
            visual_cloze_built(*self, r),
    {
        let mut c = VisualClozeProcessorConfig::default();
        if let Some(v) = self.resolution {
            c.resolution = v;
        }
        if let Some(v) = self.vae_scale_factor {
            c.vae_scale_factor = v;
        }
        if let Some(v) = self.vae_latent_channels {
            c.vae_latent_channels = v;
        }
        if let Some(v) = self.do_resize {
            c.do_resize = v;
        }
        if let Some(v) = &self.resample {
            c.resample = parse_hf_resample(v, c.resample);
        }
        if let Some(v) = self.do_normalize {
            c.do_normalize = v;
        }
        if let Some(v) = self.do_binarize {
            c.do_binarize = v;
        }
        c.pixel_format = match pixel_format_conversion(self.do_convert_rgb, false, self.do_convert_grayscale, None) {
            Ok(v) => v,
            Err(e) => return Err(e),
        };
        Ok(c)
    }

    /// Builds the Marigold processor config from these settings, with the family's defaults for missing fields.
    pub fn marigold_config(&self) -> (r: MarigoldImageProcessorConfig)
        ensures
            marigold_built(*self, Ok::<MarigoldImageProcessorConfig, ProcessorConfigError>(r)),
    {
        let mut c = MarigoldImageProcessorConfig::default();
        if let Some(v) = self.vae_scale_factor {
            c.vae_scale_factor = v;
        }
        if let Some(v) = self.do_normalize {
            c.do_normalize = v;
        }
        if let Some(v) = self.do_range_check {
            c.do_range_check = v;
        }
        if let Some(v) = &self.resample {
            c.resample = parse_hf_resample(v, c.resample);
        }
        c
    }

    /// Builds the JoyImage edit processor config from these settings, with the family's defaults for missing fields.
    pub fn joy_image_edit_config(&self) -> (r: Result<JoyImageEditImageProcessorConfig, ProcessorConfigError>)
        ensures
            joy_image_edit_built(*self, r),
    {
        let mut c = JoyImageEditImageProcessorConfig::default();
        if let Some(v) = self.do_resize {
            c.do_resize = v;
        }
        if let Some(v) = self.vae_scale_factor {
            c.vae_scale_factor = v;
        }
        if let Some(v) = self.basesize {
            c.basesize = v;
        }
        if let Some(v) = &self.resample {
            c.resample = parse_hf_resample(v, c.resample);
        }
        if let Some(v) = self.do_normalize {
            c.do_normalize = v;
        }
        if let Some(v) = self.do_binarize {
            c.do_binarize = v;
        }
        c.pixel_format = match pixel_format_conversion(self.do_convert_rgb, false, self.do_convert_grayscale, c.pixel_format) {
            Ok(v) => v,
            Err(e) => return Err(e),
        };
        Ok(c)
    }

    /// Builds the Wan Animate processor config from these settings, with the family's defaults for missing fields.
    pub fn wan_animate_config(&self) -> (r: Result<WanAnimateImageProcessorConfig, ProcessorConfigError>)
        ensures
            wan_animate_built(*self, r),
    {
        let mut c = WanAnimateImageProcessorConfig::default();
        if let Some(v) = self.do_resize {
            c.do_resize = v;
        }
        if let Some(v) = self.vae_scale_factor {
            c.vae_scale_factor = v;
        }
        if let Some(v) = self.vae_latent_channels {
            c.vae_latent_channels = v;
        }
        if let Some(v) = &self.resample {
            c.resample = parse_hf_resample(v, c.resample);
        }
        if let Some(v) = self.do_normalize {
            c.do_normalize = v;
        }
        if let Some(v) = self.do_binarize {
            c.do_binarize = v;
        }
        c.pixel_format = match pixel_format_conversion(self.do_convert_rgb, false, self.do_convert_grayscale, c.pixel_format) {
            Ok(v) => v,
            Err(e) => return Err(e),
        };
        Ok(c)
    }

    /// Builds the CLIP processor config from these settings, with the family's defaults for missing fields.
    pub fn clip_config(&self) -> (r: Result<ClipImageProcessorConfig, ProcessorConfigError>)
        ensures
            clip_built(*self, r),
    {
        let mut c = ClipImageProcessorConfig::default();
        if let Some(s) = &self.size {
            c.size = match s.image_size_or_edge("size", c.size) {
                Ok(v) => v,
                Err(e) => return Err(e),
            };
        }
        if let Some(s) = &self.crop_size {
            c.crop_size = match s.image_size_or_edge("crop_size", c.crop_size) {
                Ok(v) => v,
                Err(e) => return Err(e),
            };
        }
        if let Some(v) = self.do_center_crop {
            c.do_center_crop = v;
        }
        if let Some(v) = &self.resample {
            c.resample = parse_hf_resample(v, c.resample);
        }
        Ok(c)
    }

    /// Builds the ViT processor config from these settings, with the family's defaults for missing fields.
    pub fn vit_config(&self) -> (r: Result<VitImageProcessorConfig, ProcessorConfigError>)
        ensures
            vit_built(*self, r),
    {
        let mut c = VitImageProcessorConfig::default();
        if let Some(s) = &self.size {
            c.size = match s.image_size_or_edge("size", c.size) {
                Ok(v) => v,
                Err(e) => return Err(e),
            };
        }
        if let Some(s) = &self.crop_size {
            c.crop_size = match s.image_size_or_edge("crop_size", c.crop_size) {
                Ok(v) => v,
                Err(e) => return Err(e),
            };
        }
        if let Some(v) = self.do_center_crop {
            c.do_center_crop = v;
        }
        if let Some(v) = &self.resample {
            c.resample = parse_hf_resample(v, c.resample);
        }
        Ok(c)
    }

    /// Builds the VideoMAE processor config from these settings, with the family's defaults for missing fields.
    pub fn video_mae_config(&self) -> (r: Result<VideoMaeImageProcessorConfig, ProcessorConfigError>)
        ensures
            video_mae_built(*self, r),
    {
        let mut c = VideoMaeImageProcessorConfig::default();
        if let Some(s) = &self.size {
            c.size = match s.square_edge("size", c.size) {
                Ok(v) => v,
                Err(e) => return Err(e),
            };
        }
        if let Some(s) = &self.crop_size {
            c.crop_size = match s.image_size_or_edge("crop_size", c.crop_size) {
                Ok(v) => v,
                Err(e) => return Err(e),
            };
        }
        if let Some(v) = self.do_resize {
            c.do_resize = v;
        }
        if let Some(v) = self.do_center_crop {
            c.do_center_crop = v;
        }
        if let Some(v) = self.do_rescale {
            c.do_rescale = v;
        }
        if let Some(v) = self.rescale_factor {
            c.rescale_factor = v;
        }
        if let Some(v) = self.do_normalize {
            c.do_normalize = v;
        }
        if let Some(v) = &self.image_mean {
            c.image_mean = copy_values(v);
        }
        if let Some(v) = &self.image_std {
            c.image_std = copy_values(v);
        }
        if let Some(v) = &self.resample {
            c.resample = parse_hf_resample(v, c.resample);
        }
        Ok(c)
    }

    /// Builds the ViViT processor config from these settings, with the family's defaults for missing fields.
    pub fn vivit_config(&self) -> (r: Result<VivitImageProcessorConfig, ProcessorConfigError>)
        ensures
            vivit_built(*self, r),
    {
        let mut c = VivitImageProcessorConfig::default();
        if let Some(s) = &self.size {
            c.size = match s.square_edge("size", c.size) {
                Ok(v) => v,
                Err(e) => return Err(e),
            };
        }
        if let Some(s) = &self.crop_size {
            c.crop_size = match s.image_size_or_edge("crop_size", c.crop_size) {
                Ok(v) => v,
                Err(e) => return Err(e),
            };
        }
        if let Some(v) = self.do_resize {
            c.do_resize = v;
        }
        if let Some(v) = self.do_center_crop {
            c.do_center_crop = v;
        }
        if let Some(v) = self.do_rescale {
            c.do_rescale = v;
        }
        if let Some(v) = self.rescale_factor {
            c.rescale_factor = v;
        }
        if let Some(v) = self.offset {
            c.offset = v;
        }
        if let Some(v) = self.do_normalize {
            c.do_normalize = v;
        }
        if let Some(v) = &self.image_mean {
            c.image_mean = copy_values(v);
        }
        if let Some(v) = &self.image_std {
            c.image_std = copy_values(v);
        }
        if let Some(v) = &self.resample {
            c.resample = parse_hf_resample(v, c.resample);
        }
        Ok(c)
    }

    /// Builds the Pixtral processor config from these settings, with the family's defaults for missing fields.
    pub fn pixtral_config(&self) -> (r: Result<PixtralImageProcessorConfig, ProcessorConfigError>)
        ensures
            pixtral_built(*self, r),
    {
        let mut c = PixtralImageProcessorConfig::default();
        if let Some(s) = &self.size {
            c.max_size = match s.image_size_or_edge("size", c.max_size) {
                Ok(v) => v,
                Err(e) => return Err(e),
            };
        }
        if let Some(s) = &self.patch_size {
            c.patch_size = match s.image_size_or_edge("patch_size", c.patch_size) {
                Ok(v) => v,
                Err(e) => return Err(e),
            };
        }
        if let Some(v) = self.do_rescale {
            c.do_rescale = v;
        }
        if let Some(v) = self.rescale_factor {
            c.rescale_factor = v;
        }
        if let Some(v) = self.do_normalize {
            c.do_normalize = v;
        }
        if let Some(v) = &self.image_mean {
            c.image_mean = copy_values(v);
        }
        if let Some(v) = &self.image_std {
            c.image_std = copy_values(v);
        }
        if let Some(v) = &self.resample {
            c.resample = parse_hf_resample(v, c.resample);
        }
        Ok(c)
    }

    /// Builds the Idefics3 processor config from these settings, with the family's defaults for missing fields.
    pub fn idefics3_config(&self) -> (r: Result<Idefics3ImageProcessorConfig, ProcessorConfigError>)
        ensures
            idefics3_built(*self, r),
    {
        let mut c = Idefics3ImageProcessorConfig::default();
        if let Some(s) = &self.size {
            c.longest_edge = match s.square_edge("size", c.longest_edge) {
                Ok(v) => v,
                Err(e) => return Err(e),
            };
        }
        if let Some(s) = &self.max_image_size {
            c.max_image_size = match s.square_edge("max_image_size", c.max_image_size) {
                Ok(v) => v,
                Err(e) => return Err(e),
            };
        }
        if let Some(v) = self.do_resize {
            c.do_resize = v;
        }
        if let Some(v) = self.do_image_splitting {
            c.do_image_splitting = v;
        }
        if let Some(v) = self.do_pad {
            c.do_pad = v;
        }
        if let Some(v) = self.do_rescale {
            c.do_rescale = v;
        }
        if let Some(v) = self.rescale_factor {
            c.rescale_factor = v;
        }
        if let Some(v) = self.do_normalize {
            c.do_normalize = v;
        }
        if let Some(v) = &self.image_mean {
            c.image_mean = copy_values(v);
        }
        if let Some(v) = &self.image_std {
            c.image_std = copy_values(v);
        }
        if let Some(v) = &self.resample {
            c.resample = parse_hf_resample(v, c.resample);
        }
        Ok(c)
    }

    /// Builds the Gemma 3 processor config from these settings, with the family's defaults for missing fields.
    pub fn gemma3_config(&self) -> (r: Result<Gemma3ImageProcessorConfig, ProcessorConfigError>)
        ensures
            gemma3_built(*self, r),
    {
        let mut c = Gemma3ImageProcessorConfig::default();
        if let Some(s) = &self.size {
            c.size = match s.image_size_or_edge("size", c.size) {
                Ok(v) => v,
                Err(e) => return Err(e),
            };
        }
        if let Some(v) = self.do_resize {
            c.do_resize = v;
        }
        if let Some(v) = self.do_pan_and_scan {
            c.do_pan_and_scan = v;
        }
        if let Some(v) = self.pan_and_scan_min_crop_size {
            c.pan_and_scan_min_crop_size = v;
        }
        if let Some(v) = self.pan_and_scan_max_num_crops {
            c.pan_and_scan_max_num_crops = v;
        }
        if let Some(v) = self.pan_and_scan_min_ratio_to_activate {
            c.pan_and_scan_min_ratio_to_activate = v;
        }
        if let Some(v) = self.do_rescale {
            c.do_rescale = v;
        }
        if let Some(v) = self.rescale_factor {
            c.rescale_factor = v;
        }
        if let Some(v) = self.do_normalize {
            c.do_normalize = v;
        }
        if let Some(v) = &self.image_mean {
            c.image_mean = copy_values(v);
        }
        if let Some(v) = &self.image_std {
            c.image_std = copy_values(v);
        }
        if let Some(v) = &self.resample {
            c.resample = parse_hf_resample(v, c.resample);
        }
        Ok(c)
    }

    /// Builds the Mllama processor config from these settings, with the family's defaults for missing fields.
    pub fn mllama_config(&self) -> (r: Result<MllamaImageProcessorConfig, ProcessorConfigError>)
        ensures
            mllama_built(*self, r),
    {
        let mut c = MllamaImageProcessorConfig::default();
        if let Some(s) = &self.size {
            c.tile_size = match s.square_edge("size", c.tile_size) {
                Ok(v) => v,
                Err(e) => return Err(e),
            };
        }
        if let Some(v) = self.max_image_tiles {
            c.max_image_tiles = v;
        }
        if let Some(v) = self.do_resize {
            c.do_resize = v;
        }
        if let Some(v) = self.do_pad {
            c.do_pad = v;
        }
        if let Some(v) = self.do_rescale {
            c.do_rescale = v;
        }
        if let Some(v) = self.rescale_factor {
            c.rescale_factor = v;
        }
        if let Some(v) = self.do_normalize {
            c.do_normalize = v;
        }
        if let Some(v) = &self.image_mean {
            c.image_mean = copy_values(v);
        }
        if let Some(v) = &self.image_std {
            c.image_std = copy_values(v);
        }
        if let Some(v) = &self.resample {
            c.resample = parse_hf_resample(v, c.resample);
        }
        Ok(c)
    }

    /// Builds the SAM processor config from these settings, with the family's defaults for missing fields.
    pub fn sam_config(&self) -> (r: Result<SamImageProcessorConfig, ProcessorConfigError>)
        ensures
            sam_built(*self, r),
    {
        let mut c = SamImageProcessorConfig::default();
        if let Some(s) = &self.size {
            c.image_size = match s.image_size_or_edge("size", c.image_size) {
                Ok(v) => v,
                Err(e) => return Err(e),
            };
        }
        if let Some(v) = &self.resample {
            c.resample = parse_hf_resample(v, c.resample);
        }
        Ok(c)
    }

    /// Builds the document OCR processor config from these settings, with the family's defaults for missing fields.
    pub fn document_ocr_config(&self) -> (r: Result<DocumentOcrImageProcessorConfig, ProcessorConfigError>)
        ensures
            document_ocr_built(*self, r),
    {
        let mut c = DocumentOcrImageProcessorConfig::default();
        if let Some(s) = &self.size {
            c.image_size = match s.image_size_or_edge("size", c.image_size) {
                Ok(v) => v,
                Err(e) => return Err(e),
            };
        }
        if let Some(v) = self.do_resize {
            c.do_resize = v;
        }
        if let Some(v) = self.do_thumbnail {
            c.do_thumbnail = v;
        }
        if let Some(v) = self.do_align_long_axis {
            c.do_align_long_axis = v;
        }
        if let Some(v) = self.do_pad {
            c.do_pad = v;
        }
        if let Some(v) = self.do_rescale {
            c.do_rescale = v;
        }
        if let Some(v) = self.rescale_factor {
            c.rescale_factor = v;
        }
        if let Some(v) = self.do_normalize {
            c.do_normalize = v;
        }
        if let Some(v) = &self.image_mean {
            c.image_mean = copy_values(v);
        }
        if let Some(v) = &self.image_std {
            c.image_std = copy_values(v);
        }
        if let Some(v) = &self.resample {
            c.resample = parse_hf_resample(v, c.resample);
        }
        Ok(c)
    }

    /// Builds the Qwen-VL processor config from these settings, with the family's defaults for missing fields.
    pub fn qwen_config(&self) -> (r: Result<QwenVlImageProcessorConfig, ProcessorConfigError>)
        ensures
            qwen_vl_built(*self, r),
    {
        let mut c = QwenVlImageProcessorConfig::default();
        if let Some(v) = self.min_pixels {
            c.resize_limits.min_pixels = v;
        }
        if let Some(v) = self.max_pixels {
            c.resize_limits.max_pixels = v;
        }
        if let Some(s) = &self.patch_size {
            c.patch_size = match s.square_edge("patch_size", c.patch_size) {
                Ok(v) => v,
                Err(e) => return Err(e),
            };
            c.resize_limits.factor = match checked_hf_factor(c.patch_size, c.merge_size, "patch_size") {
                Ok(v) => v,
                Err(e) => return Err(e),
            };
        }
        if let Some(v) = self.temporal_patch_size {
            c.temporal_patch_size = v;
        }
        if let Some(v) = self.merge_size {
            c.merge_size = v;
            c.resize_limits.factor = match checked_hf_factor(c.patch_size, c.merge_size, "merge_size") {
                Ok(v) => v,
                Err(e) => return Err(e),
            };
        }
        if let Some(v) = self.do_rescale {
            c.do_rescale = v;
        }
        if let Some(v) = self.rescale_factor {
            c.rescale_factor = v;
        }
        if let Some(v) = self.do_normalize {
            c.do_normalize = v;
        }
        if let Some(v) = &self.image_mean {
            c.image_mean = copy_values(v);
        }
        if let Some(v) = &self.image_std {
            c.image_std = copy_values(v);
        }
        if let Some(v) = &self.resample {
            c.resample = parse_hf_resample(v, c.resample);
        }
        Ok(c)
    }

    /// Builds the LLaVA-NeXT processor config from these settings, with the family's defaults for missing fields.
    pub fn llava_next_config(&self) -> (r: Result<LlavaNextImageProcessorConfig, ProcessorConfigError>)
        ensures
            llava_next_built(*self, r),
    {
        let mut c = LlavaNextImageProcessorConfig::default();
        if let Some(s) = &self.size {
            c.size = match s.image_size_or_edge("size", c.size) {
                Ok(v) => v,
                Err(e) => return Err(e),
            };
        }
        if let Some(s) = &self.crop_size {
            c.crop_size = match s.image_size_or_edge("crop_size", c.crop_size) {
                Ok(v) => v,
                Err(e) => return Err(e),
            };
        }
        if let Some(pairs) = &self.image_grid_pinpoints {
            c.image_grid_pinpoints = match hf_pinpoints(pairs) {
                Ok(v) => v,
                Err(e) => return Err(e),
            };
        }
        if let Some(v) = self.do_center_crop {
            c.do_center_crop = v;
        }
        if let Some(v) = self.do_pad {
            c.do_pad = v;
        }
        if let Some(v) = self.do_rescale {
            c.do_rescale = v;
        }
        if let Some(v) = self.rescale_factor {
            c.rescale_factor = v;
        }
        if let Some(v) = self.do_normalize {
            c.do_normalize = v;
        }
        if let Some(v) = &self.image_mean {
            c.image_mean = copy_values(v);
        }
        if let Some(v) = &self.image_std {
            c.image_std = copy_values(v);
        }
        if let Some(v) = &self.resample {
            c.resample = parse_hf_resample(v, c.resample);
        }
        Ok(c)
    }

    /// Builds the DETR processor config from these settings, with the family's defaults for missing fields.
    pub fn detr_config(&self) -> (r: Result<DetrImageProcessorConfig, ProcessorConfigError>)
        ensures
            detr_built(*self, r),
    {
        let mut c = DetrImageProcessorConfig::default();
        if let Some(s) = &self.size {
            match s.shortest_edge_resize_config("size") {
                Ok(Some(resize_size)) => c.resize_size = resize_size,
                Ok(None) => {},
                Err(e) => return Err(e),
            }
            c.image_size = match s.image_size_or_edge("size", c.image_size) {
                Ok(v) => v,
                Err(e) => return Err(e),
            };
        }
        if let Some(v) = self.do_pad {
            c.do_pad = v;
        }
        if let Some(s) = &self.pad_size {
            c.pad_size = match s.image_size_or_edge("pad_size", c.image_size) {
                Ok(v) => Some(v),
                Err(e) => return Err(e),
            };
        }
        if let Some(v) = self.pad_to_multiple {
            c.pad_to_multiple = Some(v);
        }
        if let Some(v) = &self.resample {
            c.resample = parse_hf_resample(v, c.resample);
        }
        Ok(c)
    }

    /// Builds the LTX-2 video HDR processor config from these settings, with the family's defaults for missing fields.
    pub fn ltx2_video_hdr_config(&self) -> (r: Result<Ltx2VideoHdrProcessorConfig, ProcessorConfigError>)
        ensures
            ltx2_video_hdr_built(*self, r),
    {
        let mut c = Ltx2VideoHdrProcessorConfig::default();
        if let Some(v) = self.do_resize {
            c.do_resize = v;
        }
        if let Some(v) = self.vae_scale_factor {
            c.vae_scale_factor = v;
        }
        if let Some(v) = &self.resample {
            c.resample = parse_hf_resample(v, c.resample);
        }
        if let Some(t) = &self.hdr_transform {
            if !str_equal(t.as_str(), "logc3") {
                return Err(ProcessorConfigError::UnsupportedHdrTransform(t.clone()));
            }
        }
        Ok(c)
    }

}

/// The processor type a config names: `image_processor_type`, else `processor_class`.
pub open spec fn spec_processor_type(h: HfPreprocessorConfig) -> Option<Seq<char>> {
    match h.image_processor_type {
        Some(t) => Some(t@),
        None => opt_string_view(h.processor_class),
    }
}

/// What reading family `family` from `h` gives.
pub open spec fn family_built(h: HfPreprocessorConfig, family: ProcessorFamily, r: Result<ProcessorFamilyConfig, ProcessorConfigError>) -> bool {
    match family {
        ProcessorFamily::Blip => match r {
            Ok(ProcessorFamilyConfig::Blip(c)) => blip_built(h, Ok::<BlipImageProcessorConfig, ProcessorConfigError>(c)),
            Ok(_) => false,
            Err(e) => blip_built(h, Err::<BlipImageProcessorConfig, ProcessorConfigError>(e)),
        },
        ProcessorFamily::Flux2 => match r {
            Ok(ProcessorFamilyConfig::Flux2(c)) => flux2_built(h, Ok::<Flux2ImageProcessorConfig, ProcessorConfigError>(c)),
            Ok(_) => false,
            Err(e) => flux2_built(h, Err::<Flux2ImageProcessorConfig, ProcessorConfigError>(e)),
        },
        ProcessorFamily::VisualCloze => match r {
            Ok(ProcessorFamilyConfig::VisualCloze(c)) => visual_cloze_built(h, Ok::<VisualClozeProcessorConfig, ProcessorConfigError>(c)),
            Ok(_) => false,
            Err(e) => visual_cloze_built(h, Err::<VisualClozeProcessorConfig, ProcessorConfigError>(e)),
        },
        ProcessorFamily::HunyuanVideo15 => match r {
            Ok(ProcessorFamilyConfig::HunyuanVideo15(c)) => hunyuan_video_15_built(h, Ok::<HunyuanVideo15ImageProcessorConfig, ProcessorConfigError>(c)),
            Ok(_) => false,
            Err(e) => hunyuan_video_15_built(h, Err::<HunyuanVideo15ImageProcessorConfig, ProcessorConfigError>(e)),
        },
        ProcessorFamily::Marigold => r matches Ok(ProcessorFamilyConfig::Marigold(c)) && marigold_built(h, Ok::<MarigoldImageProcessorConfig, ProcessorConfigError>(c)),
        ProcessorFamily::JoyImageEdit => match r {
            Ok(ProcessorFamilyConfig::JoyImageEdit(c)) => joy_image_edit_built(h, Ok::<JoyImageEditImageProcessorConfig, ProcessorConfigError>(c)),
            Ok(_) => false,
            Err(e) => joy_image_edit_built(h, Err::<JoyImageEditImageProcessorConfig, ProcessorConfigError>(e)),
        },
        ProcessorFamily::WanAnimate => match r {
            Ok(ProcessorFamilyConfig::WanAnimate(c)) => wan_animate_built(h, Ok::<WanAnimateImageProcessorConfig, ProcessorConfigError>(c)),
            Ok(_) => false,
            Err(e) => wan_animate_built(h, Err::<WanAnimateImageProcessorConfig, ProcessorConfigError>(e)),
        },
        ProcessorFamily::Ltx2VideoHdr => match r {
            Ok(ProcessorFamilyConfig::Ltx2VideoHdr(c)) => ltx2_video_hdr_built(h, Ok::<Ltx2VideoHdrProcessorConfig, ProcessorConfigError>(c)),
            Ok(_) => false,
            Err(e) => ltx2_video_hdr_built(h, Err::<Ltx2VideoHdrProcessorConfig, ProcessorConfigError>(e)),
        },
        ProcessorFamily::Clip => match r {
            Ok(ProcessorFamilyConfig::Clip(c)) => clip_built(h, Ok::<ClipImageProcessorConfig, ProcessorConfigError>(c)),
            Ok(_) => false,
            Err(e) => clip_built(h, Err::<ClipImageProcessorConfig, ProcessorConfigError>(e)),
        },
        ProcessorFamily::VaeLdm3d => match r {
            Ok(ProcessorFamilyConfig::VaeLdm3d(c)) => vae_built(h, Ok::<VaeImageProcessorConfig, ProcessorConfigError>(c)),
            Ok(_) => false,
            Err(e) => vae_built(h, Err::<VaeImageProcessorConfig, ProcessorConfigError>(e)),
        },
        ProcessorFamily::Vae => match r {
            Ok(ProcessorFamilyConfig::Vae(c)) => vae_built(h, Ok::<VaeImageProcessorConfig, ProcessorConfigError>(c)),
            Ok(_) => false,
            Err(e) => vae_built(h, Err::<VaeImageProcessorConfig, ProcessorConfigError>(e)),
        },
        ProcessorFamily::VideoMae => match r {
            Ok(ProcessorFamilyConfig::VideoMae(c)) => video_mae_built(h, Ok::<VideoMaeImageProcessorConfig, ProcessorConfigError>(c)),
            Ok(_) => false,
            Err(e) => video_mae_built(h, Err::<VideoMaeImageProcessorConfig, ProcessorConfigError>(e)),
        },
        ProcessorFamily::Vivit => match r {
            Ok(ProcessorFamilyConfig::Vivit(c)) => vivit_built(h, Ok::<VivitImageProcessorConfig, ProcessorConfigError>(c)),
            Ok(_) => false,
            Err(e) => vivit_built(h, Err::<VivitImageProcessorConfig, ProcessorConfigError>(e)),
        },
        ProcessorFamily::Vit => match r {
            Ok(ProcessorFamilyConfig::Vit(c)) => vit_built(h, Ok::<VitImageProcessorConfig, ProcessorConfigError>(c)),
            Ok(_) => false,
            Err(e) => vit_built(h, Err::<VitImageProcessorConfig, ProcessorConfigError>(e)),
        },
        ProcessorFamily::LlavaNext => match r {
            Ok(ProcessorFamilyConfig::LlavaNext(c)) => llava_next_built(h, Ok::<LlavaNextImageProcessorConfig, ProcessorConfigError>(c)),
            Ok(_) => false,
            Err(e) => llava_next_built(h, Err::<LlavaNextImageProcessorConfig, ProcessorConfigError>(e)),
        },
        ProcessorFamily::Pixtral => match r {
            Ok(ProcessorFamilyConfig::Pixtral(c)) => pixtral_built(h, Ok::<PixtralImageProcessorConfig, ProcessorConfigError>(c)),
            Ok(_) => false,
            Err(e) => pixtral_built(h, Err::<PixtralImageProcessorConfig, ProcessorConfigError>(e)),
        },
        ProcessorFamily::Idefics3 => match r {
            Ok(ProcessorFamilyConfig::Idefics3(c)) => idefics3_built(h, Ok::<Idefics3ImageProcessorConfig, ProcessorConfigError>(c)),
            Ok(_) => false,
            Err(e) => idefics3_built(h, Err::<Idefics3ImageProcessorConfig, ProcessorConfigError>(e)),
        },
        ProcessorFamily::Gemma3 => match r {
            Ok(ProcessorFamilyConfig::Gemma3(c)) => gemma3_built(h, Ok::<Gemma3ImageProcessorConfig, ProcessorConfigError>(c)),
            Ok(_) => false,
            Err(e) => gemma3_built(h, Err::<Gemma3ImageProcessorConfig, ProcessorConfigError>(e)),
        },
        ProcessorFamily::Mllama => match r {
            Ok(ProcessorFamilyConfig::Mllama(c)) => mllama_built(h, Ok::<MllamaImageProcessorConfig, ProcessorConfigError>(c)),
            Ok(_) => false,
            Err(e) => mllama_built(h, Err::<MllamaImageProcessorConfig, ProcessorConfigError>(e)),
        },
        ProcessorFamily::QwenVl => match r {
            Ok(ProcessorFamilyConfig::QwenVl(c)) => qwen_vl_built(h, Ok::<QwenVlImageProcessorConfig, ProcessorConfigError>(c)),
            Ok(_) => false,
            Err(e) => qwen_vl_built(h, Err::<QwenVlImageProcessorConfig, ProcessorConfigError>(e)),
        },
        ProcessorFamily::Detr => match r {
            Ok(ProcessorFamilyConfig::Detr(c)) => detr_built(h, Ok::<DetrImageProcessorConfig, ProcessorConfigError>(c)),
            Ok(_) => false,
            Err(e) => detr_built(h, Err::<DetrImageProcessorConfig, ProcessorConfigError>(e)),
        },
        ProcessorFamily::Sam => match r {
            Ok(ProcessorFamilyConfig::Sam(c)) => sam_built(h, Ok::<SamImageProcessorConfig, ProcessorConfigError>(c)),
            Ok(_) => false,
            Err(e) => sam_built(h, Err::<SamImageProcessorConfig, ProcessorConfigError>(e)),
        },
        ProcessorFamily::DocumentOcr => match r {
            Ok(ProcessorFamilyConfig::DocumentOcr(c)) => document_ocr_built(h, Ok::<DocumentOcrImageProcessorConfig, ProcessorConfigError>(c)),
            Ok(_) => false,
            Err(e) => document_ocr_built(h, Err::<DocumentOcrImageProcessorConfig, ProcessorConfigError>(e)),
        },
    }
}

/// What reading a config gives: a missing processor type, an unsupported one, or
/// the settings of the family the type routes to.
pub open spec fn family_outcome(h: HfPreprocessorConfig, r: Result<ProcessorFamilyConfig, ProcessorConfigError>) -> bool {
    match spec_processor_type(h) {
        None => r == Err::<ProcessorFamilyConfig, ProcessorConfigError>(ProcessorConfigError::MissingProcessorType),
        Some(t) => match spec_route_processor_type(t) {
            None => r matches Err(ProcessorConfigError::UnsupportedProcessorType(s)) && s@ == t,
            Some(family) => family_built(h, family, r),
        },
    }
}

impl HfPreprocessorConfig {
    /// Reads the settings of the family that the processor type routes to.
    pub fn into_family_config(&self) -> (r: Result<ProcessorFamilyConfig, ProcessorConfigError>)
        ensures
            family_outcome(*self, r),
    {
        let processor_type: &String = match &self.image_processor_type {
            Some(t) => t,
            None => match &self.processor_class {
                Some(t) => t,
                None => return Err(ProcessorConfigError::MissingProcessorType),
            },
        };
        match route_processor_type(processor_type.as_str()) {
            None => Err(ProcessorConfigError::UnsupportedProcessorType(processor_type.clone())),
            Some(ProcessorFamily::Blip) => match self.blip_config() {
                Ok(c) => Ok(ProcessorFamilyConfig::Blip(c)),
                Err(e) => Err(e),
            },
            Some(ProcessorFamily::Flux2) => match self.flux2_config() {
                Ok(c) => Ok(ProcessorFamilyConfig::Flux2(c)),
                Err(e) => Err(e),
            },
            Some(ProcessorFamily::VisualCloze) => match self.visual_cloze_config() {
                Ok(c) => Ok(ProcessorFamilyConfig::VisualCloze(c)),
                Err(e) => Err(e),
            },
            Some(ProcessorFamily::HunyuanVideo15) => match self.hunyuan_video_15_config() {
                Ok(c) => Ok(ProcessorFamilyConfig::HunyuanVideo15(c)),
                Err(e) => Err(e),
            },
            Some(ProcessorFamily::Marigold) => Ok(ProcessorFamilyConfig::Marigold(self.marigold_config())),
            Some(ProcessorFamily::JoyImageEdit) => match self.joy_image_edit_config() {
                Ok(c) => Ok(ProcessorFamilyConfig::JoyImageEdit(c)),
                Err(e) => Err(e),
            },
            Some(ProcessorFamily::WanAnimate) => match self.wan_animate_config() {
                Ok(c) => Ok(ProcessorFamilyConfig::WanAnimate(c)),
                Err(e) => Err(e),
            },
            Some(ProcessorFamily::Ltx2VideoHdr) => match self.ltx2_video_hdr_config() {
                Ok(c) => Ok(ProcessorFamilyConfig::Ltx2VideoHdr(c)),
                Err(e) => Err(e),
            },
            Some(ProcessorFamily::Clip) => match self.clip_config() {
                Ok(c) => Ok(ProcessorFamilyConfig::Clip(c)),
                Err(e) => Err(e),
            },
            Some(ProcessorFamily::VaeLdm3d) => match self.vae_config() {
                Ok(c) => Ok(ProcessorFamilyConfig::VaeLdm3d(c)),
                Err(e) => Err(e),
            },
            Some(ProcessorFamily::Vae) => match self.vae_config() {
                Ok(c) => Ok(ProcessorFamilyConfig::Vae(c)),
                Err(e) => Err(e),
            },
            Some(ProcessorFamily::VideoMae) => match self.video_mae_config() {
                Ok(c) => Ok(ProcessorFamilyConfig::VideoMae(c)),
                Err(e) => Err(e),
            },
            Some(ProcessorFamily::Vivit) => match self.vivit_config() {
                Ok(c) => Ok(ProcessorFamilyConfig::Vivit(c)),
                Err(e) => Err(e),
            },
            Some(ProcessorFamily::Vit) => match self.vit_config() {
                Ok(c) => Ok(ProcessorFamilyConfig::Vit(c)),
                Err(e) => Err(e),
            },
            Some(ProcessorFamily::LlavaNext) => match self.llava_next_config() {
                Ok(c) => Ok(ProcessorFamilyConfig::LlavaNext(c)),
                Err(e) => Err(e),
            },
            Some(ProcessorFamily::Pixtral) => match self.pixtral_config() {
                Ok(c) => Ok(ProcessorFamilyConfig::Pixtral(c)),
                Err(e) => Err(e),
            },
            Some(ProcessorFamily::Idefics3) => match self.idefics3_config() {
                Ok(c) => Ok(ProcessorFamilyConfig::Idefics3(c)),
                Err(e) => Err(e),
            },
            Some(ProcessorFamily::Gemma3) => match self.gemma3_config() {
                Ok(c) => Ok(ProcessorFamilyConfig::Gemma3(c)),
                Err(e) => Err(e),
            },
            Some(ProcessorFamily::Mllama) => match self.mllama_config() {
                Ok(c) => Ok(ProcessorFamilyConfig::Mllama(c)),
                Err(e) => Err(e),
            },
            Some(ProcessorFamily::QwenVl) => match self.qwen_config() {
                Ok(c) => Ok(ProcessorFamilyConfig::QwenVl(c)),
                Err(e) => Err(e),
            },
            Some(ProcessorFamily::Detr) => match self.detr_config() {
                Ok(c) => Ok(ProcessorFamilyConfig::Detr(c)),
                Err(e) => Err(e),
            },
            Some(ProcessorFamily::Sam) => match self.sam_config() {
                Ok(c) => Ok(ProcessorFamilyConfig::Sam(c)),
                Err(e) => Err(e),
            },
            Some(ProcessorFamily::DocumentOcr) => match self.document_ocr_config() {
                Ok(c) => Ok(ProcessorFamilyConfig::DocumentOcr(c)),
                Err(e) => Err(e),
            },
        }
    }
}

impl ProcessorFamilyConfig {
    /// Reads a Hugging Face `preprocessor_config.json` text: a JSON object whose known
    /// fields must have their types, routed by its processor type.
    pub fn from_hf_preprocessor_json(json: &str) -> (r: Result<ProcessorFamilyConfig, ProcessorConfigError>)
        ensures
            match json_top_level(json@) {
                Some(JsonShallowView::Object(entries)) => if hf_fields_valid(entries) {
                    exists|h: HfPreprocessorConfig| #[trigger] hf_fields_read(entries, h) && family_outcome(h, r)
                } else {
                    r == Err::<ProcessorFamilyConfig, ProcessorConfigError>(ProcessorConfigError::InvalidJson)
                },
                _ => r == Err::<ProcessorFamilyConfig, ProcessorConfigError>(ProcessorConfigError::InvalidJson),
            },
    {
        let entries = match parse_json_object(json) {
            Some(entries) => entries,
            None => return Err(ProcessorConfigError::InvalidJson),
        };
        let config = match HfPreprocessorConfig::from_json_entries(entries.as_slice()) {
            Ok(config) => config,
            Err(e) => return Err(e),
        };
        config.into_family_config()
    }
}

/// The class name `BlipImageProcessor` routes to its family.
proof fn lemma_blip_name_routes()
    ensures
        spec_route_processor_type("BlipImageProcessor"@) == Some(ProcessorFamily::Blip),
{
    reveal_strlit("BlipImageProcessor");
    reveal_strlit("BlipImageProcessor");
    assert("BlipImageProcessor"@.subrange(0, 18) =~= "BlipImageProcessor"@);
    assert(occurs_at("BlipImageProcessor"@, "BlipImageProcessor"@, 0));
}

/// The class name `Flux2ImageProcessor` routes to its family.
proof fn lemma_flux2_name_routes()
    ensures
        spec_route_processor_type("Flux2ImageProcessor"@) == Some(ProcessorFamily::Flux2),
{
    reveal_strlit("Flux2ImageProcessor");
    reveal_strlit("BlipImageProcessor");
    assert(!has_pair_from("Flux2ImageProcessor"@, "BlipImageProcessor"@[0], "BlipImageProcessor"@[1], 0)) by {
        reveal_with_fuel(has_pair_from, 20);
    }
    lemma_pair_blocks("Flux2ImageProcessor"@, "BlipImageProcessor"@, 0);
    reveal_strlit("Flux2ImageProcessor");
    assert("Flux2ImageProcessor"@.subrange(0, 19) =~= "Flux2ImageProcessor"@);
    assert(occurs_at("Flux2ImageProcessor"@, "Flux2ImageProcessor"@, 0));
}

/// The class name `VisualClozeProcessor` routes to its family.
proof fn lemma_visual_cloze_name_routes()
    ensures
        spec_route_processor_type("VisualClozeProcessor"@) == Some(ProcessorFamily::VisualCloze),
{
    reveal_strlit("VisualClozeProcessor");
    reveal_strlit("BlipImageProcessor");
    assert(!has_pair_from("VisualClozeProcessor"@, "BlipImageProcessor"@[0], "BlipImageProcessor"@[1], 0)) by {
        reveal_with_fuel(has_pair_from, 21);
    }
    lemma_pair_blocks("VisualClozeProcessor"@, "BlipImageProcessor"@, 0);
    reveal_strlit("Flux2ImageProcessor");
    assert(!has_pair_from("VisualClozeProcessor"@, "Flux2ImageProcessor"@[0], "Flux2ImageProcessor"@[1], 0)) by {
        reveal_with_fuel(has_pair_from, 21);
    }
    lemma_pair_blocks("VisualClozeProcessor"@, "Flux2ImageProcessor"@, 0);
    reveal_strlit("VisualClozeProcessor");
    assert("VisualClozeProcessor"@.subrange(0, 20) =~= "VisualClozeProcessor"@);
    assert(occurs_at("VisualClozeProcessor"@, "VisualClozeProcessor"@, 0));
}

/// The class name `HunyuanVideo15ImageProcessor` routes to its family.
proof fn lemma_hunyuan_video15_name_routes()
    ensures
        spec_route_processor_type("HunyuanVideo15ImageProcessor"@) == Some(ProcessorFamily::HunyuanVideo15),
{
    reveal_strlit("HunyuanVideo15ImageProcessor");
    reveal_strlit("BlipImageProcessor");
    assert(!has_pair_from("HunyuanVideo15ImageProcessor"@, "BlipImageProcessor"@[0], "BlipImageProcessor"@[1], 0)) by {
        reveal_with_fuel(has_pair_from, 29);
    }
    lemma_pair_blocks("HunyuanVideo15ImageProcessor"@, "BlipImageProcessor"@, 0);
    reveal_strlit("Flux2ImageProcessor");
    assert(!has_pair_from("HunyuanVideo15ImageProcessor"@, "Flux2ImageProcessor"@[0], "Flux2ImageProcessor"@[1], 0)) by {
        reveal_with_fuel(has_pair_from, 29);
    }
    lemma_pair_blocks("HunyuanVideo15ImageProcessor"@, "Flux2ImageProcessor"@, 0);
    reveal_strlit("VisualClozeProcessor");
    assert(!has_pair_from("HunyuanVideo15ImageProcessor"@, "VisualClozeProcessor"@[1], "VisualClozeProcessor"@[2], 0)) by {
        reveal_with_fuel(has_pair_from, 29);
    }
    lemma_pair_blocks("HunyuanVideo15ImageProcessor"@, "VisualClozeProcessor"@, 1);
    reveal_strlit("HunyuanVideo15ImageProcessor");
    assert("HunyuanVideo15ImageProcessor"@.subrange(0, 28) =~= "HunyuanVideo15ImageProcessor"@);
    assert(occurs_at("HunyuanVideo15ImageProcessor"@, "HunyuanVideo15ImageProcessor"@, 0));
}

/// The class name `MarigoldImageProcessor` routes to its family.
proof fn lemma_marigold_name_routes()
    ensures
        spec_route_processor_type("MarigoldImageProcessor"@) == Some(ProcessorFamily::Marigold),
{
    reveal_strlit("MarigoldImageProcessor");
    reveal_strlit("BlipImageProcessor");
    assert(!has_pair_from("MarigoldImageProcessor"@, "BlipImageProcessor"@[0], "BlipImageProcessor"@[1], 0)) by {
        reveal_with_fuel(has_pair_from, 23);
    }
    lemma_pair_blocks("MarigoldImageProcessor"@, "BlipImageProcessor"@, 0);
    reveal_strlit("Flux2ImageProcessor");
    assert(!has_pair_from("MarigoldImageProcessor"@, "Flux2ImageProcessor"@[0], "Flux2ImageProcessor"@[1], 0)) by {
        reveal_with_fuel(has_pair_from, 23);
    }
    lemma_pair_blocks("MarigoldImageProcessor"@, "Flux2ImageProcessor"@, 0);
    reveal_strlit("VisualClozeProcessor");
    assert(!has_pair_from("MarigoldImageProcessor"@, "VisualClozeProcessor"@[0], "VisualClozeProcessor"@[1], 0)) by {
        reveal_with_fuel(has_pair_from, 23);
    }
    lemma_pair_blocks("MarigoldImageProcessor"@, "VisualClozeProcessor"@, 0);
    reveal_strlit("HunyuanVideo15ImageProcessor");
    assert(!has_pair_from("MarigoldImageProcessor"@, "HunyuanVideo15ImageProcessor"@[0], "HunyuanVideo15ImageProcessor"@[1], 0)) by {
        reveal_with_fuel(has_pair_from, 23);
    }
    lemma_pair_blocks("MarigoldImageProcessor"@, "HunyuanVideo15ImageProcessor"@, 0);
    reveal_strlit("MarigoldImageProcessor");
    assert("MarigoldImageProcessor"@.subrange(0, 22) =~= "MarigoldImageProcessor"@);
    assert(occurs_at("MarigoldImageProcessor"@, "MarigoldImageProcessor"@, 0));
}

/// The class name `JoyImageEditImageProcessor` routes to its family.
proof fn lemma_joy_image_edit_name_routes()
    ensures
        spec_route_processor_type("JoyImageEditImageProcessor"@) == Some(ProcessorFamily::JoyImageEdit),
{
    reveal_strlit("JoyImageEditImageProcessor");
    reveal_strlit("BlipImageProcessor");
    assert(!has_pair_from("JoyImageEditImageProcessor"@, "BlipImageProcessor"@[0], "BlipImageProcessor"@[1], 0)) by {
        reveal_with_fuel(has_pair_from, 27);
    }
    lemma_pair_blocks("JoyImageEditImageProcessor"@, "BlipImageProcessor"@, 0);
    reveal_strlit("Flux2ImageProcessor");
    assert(!has_pair_from("JoyImageEditImageProcessor"@, "Flux2ImageProcessor"@[0], "Flux2ImageProcessor"@[1], 0)) by {
        reveal_with_fuel(has_pair_from, 27);
    }
    lemma_pair_blocks("JoyImageEditImageProcessor"@, "Flux2ImageProcessor"@, 0);
    reveal_strlit("VisualClozeProcessor");
    assert(!has_pair_from("JoyImageEditImageProcessor"@, "VisualClozeProcessor"@[0], "VisualClozeProcessor"@[1], 0)) by {
        reveal_with_fuel(has_pair_from, 27);
    }
    lemma_pair_blocks("JoyImageEditImageProcessor"@, "VisualClozeProcessor"@, 0);
    reveal_strlit("HunyuanVideo15ImageProcessor");
    assert(!has_pair_from("JoyImageEditImageProcessor"@, "HunyuanVideo15ImageProcessor"@[0], "HunyuanVideo15ImageProcessor"@[1], 0)) by {
        reveal_with_fuel(has_pair_from, 27);
    }
    lemma_pair_blocks("JoyImageEditImageProcessor"@, "HunyuanVideo15ImageProcessor"@, 0);
    reveal_strlit("MarigoldImageProcessor");
    assert(!has_pair_from("JoyImageEditImageProcessor"@, "MarigoldImageProcessor"@[0], "MarigoldImageProcessor"@[1], 0)) by {
        reveal_with_fuel(has_pair_from, 27);
    }
    lemma_pair_blocks("JoyImageEditImageProcessor"@, "MarigoldImageProcessor"@, 0);
    reveal_strlit("JoyImageEditImageProcessor");
    assert("JoyImageEditImageProcessor"@.subrange(0, 26) =~= "JoyImageEditImageProcessor"@);
    assert(occurs_at("JoyImageEditImageProcessor"@, "JoyImageEditImageProcessor"@, 0));
}

/// The class name `WanAnimateImageProcessor` routes to its family.
proof fn lemma_wan_animate_name_routes()
    ensures
        spec_route_processor_type("WanAnimateImageProcessor"@) == Some(ProcessorFamily::WanAnimate),
{
    reveal_strlit("WanAnimateImageProcessor");
    reveal_strlit("BlipImageProcessor");
    assert(!has_pair_from("WanAnimateImageProcessor"@, "BlipImageProcessor"@[0], "BlipImageProcessor"@[1], 0)) by {
        reveal_with_fuel(has_pair_from, 25);
    }
    lemma_pair_blocks("WanAnimateImageProcessor"@, "BlipImageProcessor"@, 0);
    reveal_strlit("Flux2ImageProcessor");
    assert(!has_pair_from("WanAnimateImageProcessor"@, "Flux2ImageProcessor"@[0], "Flux2ImageProcessor"@[1], 0)) by {
        reveal_with_fuel(has_pair_from, 25);
    }
    lemma_pair_blocks("WanAnimateImageProcessor"@, "Flux2ImageProcessor"@, 0);
    reveal_strlit("VisualClozeProcessor");
    assert(!has_pair_from("WanAnimateImageProcessor"@, "VisualClozeProcessor"@[0], "VisualClozeProcessor"@[1], 0)) by {
        reveal_with_fuel(has_pair_from, 25);
    }
    lemma_pair_blocks("WanAnimateImageProcessor"@, "VisualClozeProcessor"@, 0);
    reveal_strlit("HunyuanVideo15ImageProcessor");
    assert(!has_pair_from("WanAnimateImageProcessor"@, "HunyuanVideo15ImageProcessor"@[0], "HunyuanVideo15ImageProcessor"@[1], 0)) by {
        reveal_with_fuel(has_pair_from, 25);
    }
    lemma_pair_blocks("WanAnimateImageProcessor"@, "HunyuanVideo15ImageProcessor"@, 0);
    reveal_strlit("MarigoldImageProcessor");
    assert(!has_pair_from("WanAnimateImageProcessor"@, "MarigoldImageProcessor"@[0], "MarigoldImageProcessor"@[1], 0)) by {
        reveal_with_fuel(has_pair_from, 25);
    }
    lemma_pair_blocks("WanAnimateImageProcessor"@, "MarigoldImageProcessor"@, 0);
    reveal_strlit("JoyImageEditImageProcessor");
    assert(!has_pair_from("WanAnimateImageProcessor"@, "JoyImageEditImageProcessor"@[0], "JoyImageEditImageProcessor"@[1], 0)) by {
        reveal_with_fuel(has_pair_from, 25);
    }
    lemma_pair_blocks("WanAnimateImageProcessor"@, "JoyImageEditImageProcessor"@, 0);
    reveal_strlit("WanAnimateImageProcessor");
    assert("WanAnimateImageProcessor"@.subrange(0, 24) =~= "WanAnimateImageProcessor"@);
    assert(occurs_at("WanAnimateImageProcessor"@, "WanAnimateImageProcessor"@, 0));
}

/// The class name `LTX2VideoHDRProcessor` routes to its family.
proof fn lemma_ltx2_video_hdr_name_routes()
    ensures
        spec_route_processor_type("LTX2VideoHDRProcessor"@) == Some(ProcessorFamily::Ltx2VideoHdr),
{
    reveal_strlit("LTX2VideoHDRProcessor");
    reveal_strlit("BlipImageProcessor");
    assert(!has_pair_from("LTX2VideoHDRProcessor"@, "BlipImageProcessor"@[0], "BlipImageProcessor"@[1], 0)) by {
        reveal_with_fuel(has_pair_from, 22);
    }
    lemma_pair_blocks("LTX2VideoHDRProcessor"@, "BlipImageProcessor"@, 0);
    reveal_strlit("Flux2ImageProcessor");
    assert(!has_pair_from("LTX2VideoHDRProcessor"@, "Flux2ImageProcessor"@[0], "Flux2ImageProcessor"@[1], 0)) by {
        reveal_with_fuel(has_pair_from, 22);
    }
    lemma_pair_blocks("LTX2VideoHDRProcessor"@, "Flux2ImageProcessor"@, 0);
    reveal_strlit("VisualClozeProcessor");
    assert(!has_pair_from("LTX2VideoHDRProcessor"@, "VisualClozeProcessor"@[1], "VisualClozeProcessor"@[2], 0)) by {
        reveal_with_fuel(has_pair_from, 22);
    }
    lemma_pair_blocks("LTX2VideoHDRProcessor"@, "VisualClozeProcessor"@, 1);
    reveal_strlit("HunyuanVideo15ImageProcessor");
    assert(!has_pair_from("LTX2VideoHDRProcessor"@, "HunyuanVideo15ImageProcessor"@[0], "HunyuanVideo15ImageProcessor"@[1], 0)) by {
        reveal_with_fuel(has_pair_from, 22);
    }
    lemma_pair_blocks("LTX2VideoHDRProcessor"@, "HunyuanVideo15ImageProcessor"@, 0);
    reveal_strlit("MarigoldImageProcessor");
    assert(!has_pair_from("LTX2VideoHDRProcessor"@, "MarigoldImageProcessor"@[0], "MarigoldImageProcessor"@[1], 0)) by {
        reveal_with_fuel(has_pair_from, 22);
    }
    lemma_pair_blocks("LTX2VideoHDRProcessor"@, "MarigoldImageProcessor"@, 0);
    reveal_strlit("JoyImageEditImageProcessor");
    assert(!has_pair_from("LTX2VideoHDRProcessor"@, "JoyImageEditImageProcessor"@[0], "JoyImageEditImageProcessor"@[1], 0)) by {
        reveal_with_fuel(has_pair_from, 22);
    }
    lemma_pair_blocks("LTX2VideoHDRProcessor"@, "JoyImageEditImageProcessor"@, 0);
    reveal_strlit("WanAnimateImageProcessor");
    assert(!has_pair_from("LTX2VideoHDRProcessor"@, "WanAnimateImageProcessor"@[0], "WanAnimateImageProcessor"@[1], 0)) by {
        reveal_with_fuel(has_pair_from, 22);
    }
    lemma_pair_blocks("LTX2VideoHDRProcessor"@, "WanAnimateImageProcessor"@, 0);
    reveal_strlit("LTX2VideoHDRProcessor");
    assert("LTX2VideoHDRProcessor"@.subrange(0, 21) =~= "LTX2VideoHDRProcessor"@);
    assert(occurs_at("LTX2VideoHDRProcessor"@, "LTX2VideoHDRProcessor"@, 0));
}

/// The class name `CLIPImageProcessor` routes to its family.
proof fn lemma_clip_name_routes()
    ensures
        spec_route_processor_type("CLIPImageProcessor"@) == Some(ProcessorFamily::Clip),
{
    reveal_strlit("CLIPImageProcessor");
    reveal_strlit("BlipImageProcessor");
    assert(!has_pair_from("CLIPImageProcessor"@, "BlipImageProcessor"@[0], "BlipImageProcessor"@[1], 0)) by {
        reveal_with_fuel(has_pair_from, 19);
    }
    lemma_pair_blocks("CLIPImageProcessor"@, "BlipImageProcessor"@, 0);
    reveal_strlit("Flux2ImageProcessor");
    assert(!has_pair_from("CLIPImageProcessor"@, "Flux2ImageProcessor"@[0], "Flux2ImageProcessor"@[1], 0)) by {
        reveal_with_fuel(has_pair_from, 19);
    }
    lemma_pair_blocks("CLIPImageProcessor"@, "Flux2ImageProcessor"@, 0);
    reveal_strlit("VisualClozeProcessor");
    assert(!has_pair_from("CLIPImageProcessor"@, "VisualClozeProcessor"@[0], "VisualClozeProcessor"@[1], 0)) by {
        reveal_with_fuel(has_pair_from, 19);
    }
    lemma_pair_blocks("CLIPImageProcessor"@, "VisualClozeProcessor"@, 0);
    reveal_strlit("HunyuanVideo15ImageProcessor");
    assert(!has_pair_from("CLIPImageProcessor"@, "HunyuanVideo15ImageProcessor"@[0], "HunyuanVideo15ImageProcessor"@[1], 0)) by {
        reveal_with_fuel(has_pair_from, 19);
    }
    lemma_pair_blocks("CLIPImageProcessor"@, "HunyuanVideo15ImageProcessor"@, 0);
    reveal_strlit("MarigoldImageProcessor");
    assert(!has_pair_from("CLIPImageProcessor"@, "MarigoldImageProcessor"@[0], "MarigoldImageProcessor"@[1], 0)) by {
        reveal_with_fuel(has_pair_from, 19);
    }
    lemma_pair_blocks("CLIPImageProcessor"@, "MarigoldImageProcessor"@, 0);
    reveal_strlit("JoyImageEditImageProcessor");
    assert(!has_pair_from("CLIPImageProcessor"@, "JoyImageEditImageProcessor"@[0], "JoyImageEditImageProcessor"@[1], 0)) by {
        reveal_with_fuel(has_pair_from, 19);
    }
    lemma_pair_blocks("CLIPImageProcessor"@, "JoyImageEditImageProcessor"@, 0);
    reveal_strlit("WanAnimateImageProcessor");
    assert(!has_pair_from("CLIPImageProcessor"@, "WanAnimateImageProcessor"@[0], "WanAnimateImageProcessor"@[1], 0)) by {
        reveal_with_fuel(has_pair_from, 19);
    }
    lemma_pair_blocks("CLIPImageProcessor"@, "WanAnimateImageProcessor"@, 0);
    reveal_strlit("LTX2VideoHDRProcessor");
    assert(!has_pair_from("CLIPImageProcessor"@, "LTX2VideoHDRProcessor"@[0], "LTX2VideoHDRProcessor"@[1], 0)) by {
        reveal_with_fuel(has_pair_from, 19);
    }
    lemma_pair_blocks("CLIPImageProcessor"@, "LTX2VideoHDRProcessor"@, 0);
    reveal_strlit("CLIPImageProcessor");
    assert("CLIPImageProcessor"@.subrange(0, 18) =~= "CLIPImageProcessor"@);
    assert(occurs_at("CLIPImageProcessor"@, "CLIPImageProcessor"@, 0));
}

/// The class name `VaeImageProcessorLDM3D` routes to its family.
proof fn lemma_vae_ldm3d_name_routes()
    ensures
        spec_route_processor_type("VaeImageProcessorLDM3D"@) == Some(ProcessorFamily::VaeLdm3d),
{
    reveal_strlit("VaeImageProcessorLDM3D");
    reveal_strlit("BlipImageProcessor");
    assert(!has_pair_from("VaeImageProcessorLDM3D"@, "BlipImageProcessor"@[0], "BlipImageProcessor"@[1], 0)) by {
        reveal_with_fuel(has_pair_from, 23);
    }
    lemma_pair_blocks("VaeImageProcessorLDM3D"@, "BlipImageProcessor"@, 0);
    reveal_strlit("Flux2ImageProcessor");
    assert(!has_pair_from("VaeImageProcessorLDM3D"@, "Flux2ImageProcessor"@[0], "Flux2ImageProcessor"@[1], 0)) by {
        reveal_with_fuel(has_pair_from, 23);
    }
    lemma_pair_blocks("VaeImageProcessorLDM3D"@, "Flux2ImageProcessor"@, 0);
    reveal_strlit("VisualClozeProcessor");
    assert(!has_pair_from("VaeImageProcessorLDM3D"@, "VisualClozeProcessor"@[0], "VisualClozeProcessor"@[1], 0)) by {
        reveal_with_fuel(has_pair_from, 23);
    }
    lemma_pair_blocks("VaeImageProcessorLDM3D"@, "VisualClozeProcessor"@, 0);
    reveal_strlit("HunyuanVideo15ImageProcessor");
    assert(!has_pair_from("VaeImageProcessorLDM3D"@, "HunyuanVideo15ImageProcessor"@[0], "HunyuanVideo15ImageProcessor"@[1], 0)) by {
        reveal_with_fuel(has_pair_from, 23);
    }
    lemma_pair_blocks("VaeImageProcessorLDM3D"@, "HunyuanVideo15ImageProcessor"@, 0);
    reveal_strlit("MarigoldImageProcessor");
    assert(!has_pair_from("VaeImageProcessorLDM3D"@, "MarigoldImageProcessor"@[0], "MarigoldImageProcessor"@[1], 0)) by {
        reveal_with_fuel(has_pair_from, 23);
    }
    lemma_pair_blocks("VaeImageProcessorLDM3D"@, "MarigoldImageProcessor"@, 0);
    reveal_strlit("JoyImageEditImageProcessor");
    assert(!has_pair_from("VaeImageProcessorLDM3D"@, "JoyImageEditImageProcessor"@[0], "JoyImageEditImageProcessor"@[1], 0)) by {
        reveal_with_fuel(has_pair_from, 23);
    }
    lemma_pair_blocks("VaeImageProcessorLDM3D"@, "JoyImageEditImageProcessor"@, 0);
    reveal_strlit("WanAnimateImageProcessor");
    assert(!has_pair_from("VaeImageProcessorLDM3D"@, "WanAnimateImageProcessor"@[0], "WanAnimateImageProcessor"@[1], 0)) by {
        reveal_with_fuel(has_pair_from, 23);
    }
    lemma_pair_blocks("VaeImageProcessorLDM3D"@, "WanAnimateImageProcessor"@, 0);
    reveal_strlit("LTX2VideoHDRProcessor");
    assert(!has_pair_from("VaeImageProcessorLDM3D"@, "LTX2VideoHDRProcessor"@[0], "LTX2VideoHDRProcessor"@[1], 0)) by {
        reveal_with_fuel(has_pair_from, 23);
    }
    lemma_pair_blocks("VaeImageProcessorLDM3D"@, "LTX2VideoHDRProcessor"@, 0);
    reveal_strlit("CLIPImageProcessor");
    assert(!has_pair_from("VaeImageProcessorLDM3D"@, "CLIPImageProcessor"@[0], "CLIPImageProcessor"@[1], 0)) by {
        reveal_with_fuel(has_pair_from, 23);
    }
    lemma_pair_blocks("VaeImageProcessorLDM3D"@, "CLIPImageProcessor"@, 0);
    reveal_strlit("VaeImageProcessorLDM3D");
    assert("VaeImageProcessorLDM3D"@.subrange(0, 22) =~= "VaeImageProcessorLDM3D"@);
    assert(occurs_at("VaeImageProcessorLDM3D"@, "VaeImageProcessorLDM3D"@, 0));
}

/// The class name `VaeImageProcessor` routes to its family.
proof fn lemma_vae_name_routes()
    ensures
        spec_route_processor_type("VaeImageProcessor"@) == Some(ProcessorFamily::Vae),
{
    reveal_strlit("VaeImageProcessor");
    reveal_strlit("BlipImageProcessor");
    assert(!has_pair_from("VaeImageProcessor"@, "BlipImageProcessor"@[0], "BlipImageProcessor"@[1], 0)) by {
        reveal_with_fuel(has_pair_from, 18);
    }
    lemma_pair_blocks("VaeImageProcessor"@, "BlipImageProcessor"@, 0);
    reveal_strlit("Flux2ImageProcessor");
    assert(!has_pair_from("VaeImageProcessor"@, "Flux2ImageProcessor"@[0], "Flux2ImageProcessor"@[1], 0)) by {
        reveal_with_fuel(has_pair_from, 18);
    }
    lemma_pair_blocks("VaeImageProcessor"@, "Flux2ImageProcessor"@, 0);
    reveal_strlit("VisualClozeProcessor");
    assert(!has_pair_from("VaeImageProcessor"@, "VisualClozeProcessor"@[0], "VisualClozeProcessor"@[1], 0)) by {
        reveal_with_fuel(has_pair_from, 18);
    }
    lemma_pair_blocks("VaeImageProcessor"@, "VisualClozeProcessor"@, 0);
    reveal_strlit("HunyuanVideo15ImageProcessor");
    assert(!has_pair_from("VaeImageProcessor"@, "HunyuanVideo15ImageProcessor"@[0], "HunyuanVideo15ImageProcessor"@[1], 0)) by {
        reveal_with_fuel(has_pair_from, 18);
    }
    lemma_pair_blocks("VaeImageProcessor"@, "HunyuanVideo15ImageProcessor"@, 0);
    reveal_strlit("MarigoldImageProcessor");
    assert(!has_pair_from("VaeImageProcessor"@, "MarigoldImageProcessor"@[0], "MarigoldImageProcessor"@[1], 0)) by {
        reveal_with_fuel(has_pair_from, 18);
    }
    lemma_pair_blocks("VaeImageProcessor"@, "MarigoldImageProcessor"@, 0);
    reveal_strlit("JoyImageEditImageProcessor");
    assert(!has_pair_from("VaeImageProcessor"@, "JoyImageEditImageProcessor"@[0], "JoyImageEditImageProcessor"@[1], 0)) by {
        reveal_with_fuel(has_pair_from, 18);
    }
    lemma_pair_blocks("VaeImageProcessor"@, "JoyImageEditImageProcessor"@, 0);
    reveal_strlit("WanAnimateImageProcessor");
    assert(!has_pair_from("VaeImageProcessor"@, "WanAnimateImageProcessor"@[0], "WanAnimateImageProcessor"@[1], 0)) by {
        reveal_with_fuel(has_pair_from, 18);
    }
    lemma_pair_blocks("VaeImageProcessor"@, "WanAnimateImageProcessor"@, 0);
    reveal_strlit("LTX2VideoHDRProcessor");
    assert(!has_pair_from("VaeImageProcessor"@, "LTX2VideoHDRProcessor"@[0], "LTX2VideoHDRProcessor"@[1], 0)) by {
        reveal_with_fuel(has_pair_from, 18);
    }
    lemma_pair_blocks("VaeImageProcessor"@, "LTX2VideoHDRProcessor"@, 0);
    reveal_strlit("CLIPImageProcessor");
    assert(!has_pair_from("VaeImageProcessor"@, "CLIPImageProcessor"@[0], "CLIPImageProcessor"@[1], 0)) by {
        reveal_with_fuel(has_pair_from, 18);
    }
    lemma_pair_blocks("VaeImageProcessor"@, "CLIPImageProcessor"@, 0);
    reveal_strlit("VaeImageProcessorLDM3D");
    assert(!has_pair_from("VaeImageProcessor"@, "VaeImageProcessorLDM3D"@[16], "VaeImageProcessorLDM3D"@[17], 0)) by {
        reveal_with_fuel(has_pair_from, 18);
    }
    lemma_pair_blocks("VaeImageProcessor"@, "VaeImageProcessorLDM3D"@, 16);
    reveal_strlit("VaeImageProcessorLdm3d");
    assert(!has_pair_from("VaeImageProcessor"@, "VaeImageProcessorLdm3d"@[16], "VaeImageProcessorLdm3d"@[17], 0)) by {
        reveal_with_fuel(has_pair_from, 18);
    }
    lemma_pair_blocks("VaeImageProcessor"@, "VaeImageProcessorLdm3d"@, 16);
    reveal_strlit("VaeImageProcessor");
    assert("VaeImageProcessor"@.subrange(0, 17) =~= "VaeImageProcessor"@);
    assert(occurs_at("VaeImageProcessor"@, "VaeImageProcessor"@, 0));
}

/// The class name `VideoMAEImageProcessor` routes to its family.
proof fn lemma_video_mae_name_routes()
    ensures
        spec_route_processor_type("VideoMAEImageProcessor"@) == Some(ProcessorFamily::VideoMae),
{
    reveal_strlit("VideoMAEImageProcessor");
    reveal_strlit("BlipImageProcessor");
    assert(!has_pair_from("VideoMAEImageProcessor"@, "BlipImageProcessor"@[0], "BlipImageProcessor"@[1], 0)) by {
        reveal_with_fuel(has_pair_from, 23);
    }
    lemma_pair_blocks("VideoMAEImageProcessor"@, "BlipImageProcessor"@, 0);
    reveal_strlit("Flux2ImageProcessor");
    assert(!has_pair_from("VideoMAEImageProcessor"@, "Flux2ImageProcessor"@[0], "Flux2ImageProcessor"@[1], 0)) by {
        reveal_with_fuel(has_pair_from, 23);
    }
    lemma_pair_blocks("VideoMAEImageProcessor"@, "Flux2ImageProcessor"@, 0);
    reveal_strlit("VisualClozeProcessor");
    assert(!has_pair_from("VideoMAEImageProcessor"@, "VisualClozeProcessor"@[1], "VisualClozeProcessor"@[2], 0)) by {
        reveal_with_fuel(has_pair_from, 23);
    }
    lemma_pair_blocks("VideoMAEImageProcessor"@, "VisualClozeProcessor"@, 1);
    reveal_strlit("HunyuanVideo15ImageProcessor");
    assert(!has_pair_from("VideoMAEImageProcessor"@, "HunyuanVideo15ImageProcessor"@[0], "HunyuanVideo15ImageProcessor"@[1], 0)) by {
        reveal_with_fuel(has_pair_from, 23);
    }
    lemma_pair_blocks("VideoMAEImageProcessor"@, "HunyuanVideo15ImageProcessor"@, 0);
    reveal_strlit("MarigoldImageProcessor");
    assert(!has_pair_from("VideoMAEImageProcessor"@, "MarigoldImageProcessor"@[0], "MarigoldImageProcessor"@[1], 0)) by {
        reveal_with_fuel(has_pair_from, 23);
    }
    lemma_pair_blocks("VideoMAEImageProcessor"@, "MarigoldImageProcessor"@, 0);
    reveal_strlit("JoyImageEditImageProcessor");
    assert(!has_pair_from("VideoMAEImageProcessor"@, "JoyImageEditImageProcessor"@[0], "JoyImageEditImageProcessor"@[1], 0)) by {
        reveal_with_fuel(has_pair_from, 23);
    }
    lemma_pair_blocks("VideoMAEImageProcessor"@, "JoyImageEditImageProcessor"@, 0);
    reveal_strlit("WanAnimateImageProcessor");
    assert(!has_pair_from("VideoMAEImageProcessor"@, "WanAnimateImageProcessor"@[0], "WanAnimateImageProcessor"@[1], 0)) by {
        reveal_with_fuel(has_pair_from, 23);
    }
    lemma_pair_blocks("VideoMAEImageProcessor"@, "WanAnimateImageProcessor"@, 0);
    reveal_strlit("LTX2VideoHDRProcessor");
    assert(!has_pair_from("VideoMAEImageProcessor"@, "LTX2VideoHDRProcessor"@[0], "LTX2VideoHDRProcessor"@[1], 0)) by {
        reveal_with_fuel(has_pair_from, 23);
    }
    lemma_pair_blocks("VideoMAEImageProcessor"@, "LTX2VideoHDRProcessor"@, 0);
    reveal_strlit("CLIPImageProcessor");
    assert(!has_pair_from("VideoMAEImageProcessor"@, "CLIPImageProcessor"@[0], "CLIPImageProcessor"@[1], 0)) by {
        reveal_with_fuel(has_pair_from, 23);
    }
    lemma_pair_blocks("VideoMAEImageProcessor"@, "CLIPImageProcessor"@, 0);
    reveal_strlit("VaeImageProcessorLDM3D");
    assert(!has_pair_from("VideoMAEImageProcessor"@, "VaeImageProcessorLDM3D"@[0], "VaeImageProcessorLDM3D"@[1], 0)) by {
        reveal_with_fuel(has_pair_from, 23);
    }
    lemma_pair_blocks("VideoMAEImageProcessor"@, "VaeImageProcessorLDM3D"@, 0);
    reveal_strlit("VaeImageProcessorLdm3d");
    assert(!has_pair_from("VideoMAEImageProcessor"@, "VaeImageProcessorLdm3d"@[0], "VaeImageProcessorLdm3d"@[1], 0)) by {
        reveal_with_fuel(has_pair_from, 23);
    }
    lemma_pair_blocks("VideoMAEImageProcessor"@, "VaeImageProcessorLdm3d"@, 0);
    reveal_strlit("VaeImageProcessor");
    assert(!has_pair_from("VideoMAEImageProcessor"@, "VaeImageProcessor"@[0], "VaeImageProcessor"@[1], 0)) by {
        reveal_with_fuel(has_pair_from, 23);
    }
    lemma_pair_blocks("VideoMAEImageProcessor"@, "VaeImageProcessor"@, 0);
    reveal_strlit("VideoMAE");
    assert("VideoMAEImageProcessor"@.subrange(0, 8) =~= "VideoMAE"@);
    assert(occurs_at("VideoMAEImageProcessor"@, "VideoMAE"@, 0));
}

/// The class name `VivitImageProcessor` routes to its family.
proof fn lemma_vivit_name_routes()
    ensures
        spec_route_processor_type("VivitImageProcessor"@) == Some(ProcessorFamily::Vivit),
{
    reveal_strlit("VivitImageProcessor");
    reveal_strlit("BlipImageProcessor");
    assert(!has_pair_from("VivitImageProcessor"@, "BlipImageProcessor"@[0], "BlipImageProcessor"@[1], 0)) by {
        reveal_with_fuel(has_pair_from, 20);
    }
    lemma_pair_blocks("VivitImageProcessor"@, "BlipImageProcessor"@, 0);
    reveal_strlit("Flux2ImageProcessor");
    assert(!has_pair_from("VivitImageProcessor"@, "Flux2ImageProcessor"@[0], "Flux2ImageProcessor"@[1], 0)) by {
        reveal_with_fuel(has_pair_from, 20);
    }
    lemma_pair_blocks("VivitImageProcessor"@, "Flux2ImageProcessor"@, 0);
    reveal_strlit("VisualClozeProcessor");
    assert(!has_pair_from("VivitImageProcessor"@, "VisualClozeProcessor"@[1], "VisualClozeProcessor"@[2], 0)) by {
        reveal_with_fuel(has_pair_from, 20);
    }
    lemma_pair_blocks("VivitImageProcessor"@, "VisualClozeProcessor"@, 1);
    reveal_strlit("HunyuanVideo15ImageProcessor");
    assert(!has_pair_from("VivitImageProcessor"@, "HunyuanVideo15ImageProcessor"@[0], "HunyuanVideo15ImageProcessor"@[1], 0)) by {
        reveal_with_fuel(has_pair_from, 20);
    }
    lemma_pair_blocks("VivitImageProcessor"@, "HunyuanVideo15ImageProcessor"@, 0);
    reveal_strlit("MarigoldImageProcessor");
    assert(!has_pair_from("VivitImageProcessor"@, "MarigoldImageProcessor"@[0], "MarigoldImageProcessor"@[1], 0)) by {
        reveal_with_fuel(has_pair_from, 20);
    }
    lemma_pair_blocks("VivitImageProcessor"@, "MarigoldImageProcessor"@, 0);
    reveal_strlit("JoyImageEditImageProcessor");
    assert(!has_pair_from("VivitImageProcessor"@, "JoyImageEditImageProcessor"@[0], "JoyImageEditImageProcessor"@[1], 0)) by {
        reveal_with_fuel(has_pair_from, 20);
    }
    lemma_pair_blocks("VivitImageProcessor"@, "JoyImageEditImageProcessor"@, 0);
    reveal_strlit("WanAnimateImageProcessor");
    assert(!has_pair_from("VivitImageProcessor"@, "WanAnimateImageProcessor"@[0], "WanAnimateImageProcessor"@[1], 0)) by {
        reveal_with_fuel(has_pair_from, 20);
    }
    lemma_pair_blocks("VivitImageProcessor"@, "WanAnimateImageProcessor"@, 0);
    reveal_strlit("LTX2VideoHDRProcessor");
    assert(!has_pair_from("VivitImageProcessor"@, "LTX2VideoHDRProcessor"@[0], "LTX2VideoHDRProcessor"@[1], 0)) by {
        reveal_with_fuel(has_pair_from, 20);
    }
    lemma_pair_blocks("VivitImageProcessor"@, "LTX2VideoHDRProcessor"@, 0);
    reveal_strlit("CLIPImageProcessor");
    assert(!has_pair_from("VivitImageProcessor"@, "CLIPImageProcessor"@[0], "CLIPImageProcessor"@[1], 0)) by {
        reveal_with_fuel(has_pair_from, 20);
    }
    lemma_pair_blocks("VivitImageProcessor"@, "CLIPImageProcessor"@, 0);
    reveal_strlit("VaeImageProcessorLDM3D");
    assert(!has_pair_from("VivitImageProcessor"@, "VaeImageProcessorLDM3D"@[0], "VaeImageProcessorLDM3D"@[1], 0)) by {
        reveal_with_fuel(has_pair_from, 20);
    }
    lemma_pair_blocks("VivitImageProcessor"@, "VaeImageProcessorLDM3D"@, 0);
    reveal_strlit("VaeImageProcessorLdm3d");
    assert(!has_pair_from("VivitImageProcessor"@, "VaeImageProcessorLdm3d"@[0], "VaeImageProcessorLdm3d"@[1], 0)) by {
        reveal_with_fuel(has_pair_from, 20);
    }
    lemma_pair_blocks("VivitImageProcessor"@, "VaeImageProcessorLdm3d"@, 0);
    reveal_strlit("VaeImageProcessor");
    assert(!has_pair_from("VivitImageProcessor"@, "VaeImageProcessor"@[0], "VaeImageProcessor"@[1], 0)) by {
        reveal_with_fuel(has_pair_from, 20);
    }
    lemma_pair_blocks("VivitImageProcessor"@, "VaeImageProcessor"@, 0);
    reveal_strlit("VideoMAE");
    assert(!has_pair_from("VivitImageProcessor"@, "VideoMAE"@[1], "VideoMAE"@[2], 0)) by {
        reveal_with_fuel(has_pair_from, 20);
    }
    lemma_pair_blocks("VivitImageProcessor"@, "VideoMAE"@, 1);
    reveal_strlit("Vivit");
    assert("VivitImageProcessor"@.subrange(0, 5) =~= "Vivit"@);
    assert(occurs_at("VivitImageProcessor"@, "Vivit"@, 0));
}

/// The class name `ViTImageProcessor` routes to its family.
proof fn lemma_vit_name_routes()
    ensures
        spec_route_processor_type("ViTImageProcessor"@) == Some(ProcessorFamily::Vit),
{
    reveal_strlit("ViTImageProcessor");
    reveal_strlit("BlipImageProcessor");
    assert(!has_pair_from("ViTImageProcessor"@, "BlipImageProcessor"@[0], "BlipImageProcessor"@[1], 0)) by {
        reveal_with_fuel(has_pair_from, 18);
    }
    lemma_pair_blocks("ViTImageProcessor"@, "BlipImageProcessor"@, 0);
    reveal_strlit("Flux2ImageProcessor");
    assert(!has_pair_from("ViTImageProcessor"@, "Flux2ImageProcessor"@[0], "Flux2ImageProcessor"@[1], 0)) by {
        reveal_with_fuel(has_pair_from, 18);
    }
    lemma_pair_blocks("ViTImageProcessor"@, "Flux2ImageProcessor"@, 0);
    reveal_strlit("VisualClozeProcessor");
    assert(!has_pair_from("ViTImageProcessor"@, "VisualClozeProcessor"@[1], "VisualClozeProcessor"@[2], 0)) by {
        reveal_with_fuel(has_pair_from, 18);
    }
    lemma_pair_blocks("ViTImageProcessor"@, "VisualClozeProcessor"@, 1);
    reveal_strlit("HunyuanVideo15ImageProcessor");
    assert(!has_pair_from("ViTImageProcessor"@, "HunyuanVideo15ImageProcessor"@[0], "HunyuanVideo15ImageProcessor"@[1], 0)) by {
        reveal_with_fuel(has_pair_from, 18);
    }
    lemma_pair_blocks("ViTImageProcessor"@, "HunyuanVideo15ImageProcessor"@, 0);
    reveal_strlit("MarigoldImageProcessor");
    assert(!has_pair_from("ViTImageProcessor"@, "MarigoldImageProcessor"@[0], "MarigoldImageProcessor"@[1], 0)) by {
        reveal_with_fuel(has_pair_from, 18);
    }
    lemma_pair_blocks("ViTImageProcessor"@, "MarigoldImageProcessor"@, 0);
    reveal_strlit("JoyImageEditImageProcessor");
    assert(!has_pair_from("ViTImageProcessor"@, "JoyImageEditImageProcessor"@[0], "JoyImageEditImageProcessor"@[1], 0)) by {
        reveal_with_fuel(has_pair_from, 18);
    }
    lemma_pair_blocks("ViTImageProcessor"@, "JoyImageEditImageProcessor"@, 0);
    reveal_strlit("WanAnimateImageProcessor");
    assert(!has_pair_from("ViTImageProcessor"@, "WanAnimateImageProcessor"@[0], "WanAnimateImageProcessor"@[1], 0)) by {
        reveal_with_fuel(has_pair_from, 18);
    }
    lemma_pair_blocks("ViTImageProcessor"@, "WanAnimateImageProcessor"@, 0);
    reveal_strlit("LTX2VideoHDRProcessor");
    assert(!has_pair_from("ViTImageProcessor"@, "LTX2VideoHDRProcessor"@[0], "LTX2VideoHDRProcessor"@[1], 0)) by {
        reveal_with_fuel(has_pair_from, 18);
    }
    lemma_pair_blocks("ViTImageProcessor"@, "LTX2VideoHDRProcessor"@, 0);
    reveal_strlit("CLIPImageProcessor");
    assert(!has_pair_from("ViTImageProcessor"@, "CLIPImageProcessor"@[0], "CLIPImageProcessor"@[1], 0)) by {
        reveal_with_fuel(has_pair_from, 18);
    }
    lemma_pair_blocks("ViTImageProcessor"@, "CLIPImageProcessor"@, 0);
    reveal_strlit("VaeImageProcessorLDM3D");
    assert(!has_pair_from("ViTImageProcessor"@, "VaeImageProcessorLDM3D"@[0], "VaeImageProcessorLDM3D"@[1], 0)) by {
        reveal_with_fuel(has_pair_from, 18);
    }
    lemma_pair_blocks("ViTImageProcessor"@, "VaeImageProcessorLDM3D"@, 0);
    reveal_strlit("VaeImageProcessorLdm3d");
    assert(!has_pair_from("ViTImageProcessor"@, "VaeImageProcessorLdm3d"@[0], "VaeImageProcessorLdm3d"@[1], 0)) by {
        reveal_with_fuel(has_pair_from, 18);
    }
    lemma_pair_blocks("ViTImageProcessor"@, "VaeImageProcessorLdm3d"@, 0);
    reveal_strlit("VaeImageProcessor");
    assert(!has_pair_from("ViTImageProcessor"@, "VaeImageProcessor"@[0], "VaeImageProcessor"@[1], 0)) by {
        reveal_with_fuel(has_pair_from, 18);
    }
    lemma_pair_blocks("ViTImageProcessor"@, "VaeImageProcessor"@, 0);
    reveal_strlit("VideoMAE");
    assert(!has_pair_from("ViTImageProcessor"@, "VideoMAE"@[1], "VideoMAE"@[2], 0)) by {
        reveal_with_fuel(has_pair_from, 18);
    }
    lemma_pair_blocks("ViTImageProcessor"@, "VideoMAE"@, 1);
    reveal_strlit("Vivit");
    assert(!has_pair_from("ViTImageProcessor"@, "Vivit"@[1], "Vivit"@[2], 0)) by {
        reveal_with_fuel(has_pair_from, 18);
    }
    lemma_pair_blocks("ViTImageProcessor"@, "Vivit"@, 1);
    reveal_strlit("ViTImageProcessor");
    assert("ViTImageProcessor"@.subrange(0, 17) =~= "ViTImageProcessor"@);
    assert(occurs_at("ViTImageProcessor"@, "ViTImageProcessor"@, 0));
}

/// The class name `LlavaNextImageProcessor` routes to its family.
proof fn lemma_llava_next_name_routes()
    ensures
        spec_route_processor_type("LlavaNextImageProcessor"@) == Some(ProcessorFamily::LlavaNext),
{
    reveal_strlit("LlavaNextImageProcessor");
    reveal_strlit("BlipImageProcessor");
    assert(!has_pair_from("LlavaNextImageProcessor"@, "BlipImageProcessor"@[0], "BlipImageProcessor"@[1], 0)) by {
        reveal_with_fuel(has_pair_from, 24);
    }
    lemma_pair_blocks("LlavaNextImageProcessor"@, "BlipImageProcessor"@, 0);
    reveal_strlit("Flux2ImageProcessor");
    assert(!has_pair_from("LlavaNextImageProcessor"@, "Flux2ImageProcessor"@[0], "Flux2ImageProcessor"@[1], 0)) by {
        reveal_with_fuel(has_pair_from, 24);
    }
    lemma_pair_blocks("LlavaNextImageProcessor"@, "Flux2ImageProcessor"@, 0);
    reveal_strlit("VisualClozeProcessor");
    assert(!has_pair_from("LlavaNextImageProcessor"@, "VisualClozeProcessor"@[0], "VisualClozeProcessor"@[1], 0)) by {
        reveal_with_fuel(has_pair_from, 24);
    }
    lemma_pair_blocks("LlavaNextImageProcessor"@, "VisualClozeProcessor"@, 0);
    reveal_strlit("HunyuanVideo15ImageProcessor");
    assert(!has_pair_from("LlavaNextImageProcessor"@, "HunyuanVideo15ImageProcessor"@[0], "HunyuanVideo15ImageProcessor"@[1], 0)) by {
        reveal_with_fuel(has_pair_from, 24);
    }
    lemma_pair_blocks("LlavaNextImageProcessor"@, "HunyuanVideo15ImageProcessor"@, 0);
    reveal_strlit("MarigoldImageProcessor");
    assert(!has_pair_from("LlavaNextImageProcessor"@, "MarigoldImageProcessor"@[0], "MarigoldImageProcessor"@[1], 0)) by {
        reveal_with_fuel(has_pair_from, 24);
    }
    lemma_pair_blocks("LlavaNextImageProcessor"@, "MarigoldImageProcessor"@, 0);
    reveal_strlit("JoyImageEditImageProcessor");
    assert(!has_pair_from("LlavaNextImageProcessor"@, "JoyImageEditImageProcessor"@[0], "JoyImageEditImageProcessor"@[1], 0)) by {
        reveal_with_fuel(has_pair_from, 24);
    }
    lemma_pair_blocks("LlavaNextImageProcessor"@, "JoyImageEditImageProcessor"@, 0);
    reveal_strlit("WanAnimateImageProcessor");
    assert(!has_pair_from("LlavaNextImageProcessor"@, "WanAnimateImageProcessor"@[0], "WanAnimateImageProcessor"@[1], 0)) by {
        reveal_with_fuel(has_pair_from, 24);
    }
    lemma_pair_blocks("LlavaNextImageProcessor"@, "WanAnimateImageProcessor"@, 0);
    reveal_strlit("LTX2VideoHDRProcessor");
    assert(!has_pair_from("LlavaNextImageProcessor"@, "LTX2VideoHDRProcessor"@[0], "LTX2VideoHDRProcessor"@[1], 0)) by {
        reveal_with_fuel(has_pair_from, 24);
    }
    lemma_pair_blocks("LlavaNextImageProcessor"@, "LTX2VideoHDRProcessor"@, 0);
    reveal_strlit("CLIPImageProcessor");
    assert(!has_pair_from("LlavaNextImageProcessor"@, "CLIPImageProcessor"@[0], "CLIPImageProcessor"@[1], 0)) by {
        reveal_with_fuel(has_pair_from, 24);
    }
    lemma_pair_blocks("LlavaNextImageProcessor"@, "CLIPImageProcessor"@, 0);
    reveal_strlit("VaeImageProcessorLDM3D");
    assert(!has_pair_from("LlavaNextImageProcessor"@, "VaeImageProcessorLDM3D"@[0], "VaeImageProcessorLDM3D"@[1], 0)) by {
        reveal_with_fuel(has_pair_from, 24);
    }
    lemma_pair_blocks("LlavaNextImageProcessor"@, "VaeImageProcessorLDM3D"@, 0);
    reveal_strlit("VaeImageProcessorLdm3d");
    assert(!has_pair_from("LlavaNextImageProcessor"@, "VaeImageProcessorLdm3d"@[0], "VaeImageProcessorLdm3d"@[1], 0)) by {
        reveal_with_fuel(has_pair_from, 24);
    }
    lemma_pair_blocks("LlavaNextImageProcessor"@, "VaeImageProcessorLdm3d"@, 0);
    reveal_strlit("VaeImageProcessor");
    assert(!has_pair_from("LlavaNextImageProcessor"@, "VaeImageProcessor"@[0], "VaeImageProcessor"@[1], 0)) by {
        reveal_with_fuel(has_pair_from, 24);
    }
    lemma_pair_blocks("LlavaNextImageProcessor"@, "VaeImageProcessor"@, 0);
    reveal_strlit("VideoMAE");
    assert(!has_pair_from("LlavaNextImageProcessor"@, "VideoMAE"@[0], "VideoMAE"@[1], 0)) by {
        reveal_with_fuel(has_pair_from, 24);
    }
    lemma_pair_blocks("LlavaNextImageProcessor"@, "VideoMAE"@, 0);
    reveal_strlit("Vivit");
    assert(!has_pair_from("LlavaNextImageProcessor"@, "Vivit"@[0], "Vivit"@[1], 0)) by {
        reveal_with_fuel(has_pair_from, 24);
    }
    lemma_pair_blocks("LlavaNextImageProcessor"@, "Vivit"@, 0);
    reveal_strlit("ViTImageProcessor");
    assert(!has_pair_from("LlavaNextImageProcessor"@, "ViTImageProcessor"@[0], "ViTImageProcessor"@[1], 0)) by {
        reveal_with_fuel(has_pair_from, 24);
    }
    lemma_pair_blocks("LlavaNextImageProcessor"@, "ViTImageProcessor"@, 0);
    reveal_strlit("LlavaNext");
    assert("LlavaNextImageProcessor"@.subrange(0, 9) =~= "LlavaNext"@);
    assert(occurs_at("LlavaNextImageProcessor"@, "LlavaNext"@, 0));
}

/// The class name `PixtralImageProcessor` routes to its family.
proof fn lemma_pixtral_name_routes()
    ensures
        spec_route_processor_type("PixtralImageProcessor"@) == Some(ProcessorFamily::Pixtral),
{
    reveal_strlit("PixtralImageProcessor");
    reveal_strlit("BlipImageProcessor");
    assert(!has_pair_from("PixtralImageProcessor"@, "BlipImageProcessor"@[0], "BlipImageProcessor"@[1], 0)) by {
        reveal_with_fuel(has_pair_from, 22);
    }
    lemma_pair_blocks("PixtralImageProcessor"@, "BlipImageProcessor"@, 0);
    reveal_strlit("Flux2ImageProcessor");
    assert(!has_pair_from("PixtralImageProcessor"@, "Flux2ImageProcessor"@[0], "Flux2ImageProcessor"@[1], 0)) by {
        reveal_with_fuel(has_pair_from, 22);
    }
    lemma_pair_blocks("PixtralImageProcessor"@, "Flux2ImageProcessor"@, 0);
    reveal_strlit("VisualClozeProcessor");
    assert(!has_pair_from("PixtralImageProcessor"@, "VisualClozeProcessor"@[0], "VisualClozeProcessor"@[1], 0)) by {
        reveal_with_fuel(has_pair_from, 22);
    }
    lemma_pair_blocks("PixtralImageProcessor"@, "VisualClozeProcessor"@, 0);
    reveal_strlit("HunyuanVideo15ImageProcessor");
    assert(!has_pair_from("PixtralImageProcessor"@, "HunyuanVideo15ImageProcessor"@[0], "HunyuanVideo15ImageProcessor"@[1], 0)) by {
        reveal_with_fuel(has_pair_from, 22);
    }
    lemma_pair_blocks("PixtralImageProcessor"@, "HunyuanVideo15ImageProcessor"@, 0);
    reveal_strlit("MarigoldImageProcessor");
    assert(!has_pair_from("PixtralImageProcessor"@, "MarigoldImageProcessor"@[0], "MarigoldImageProcessor"@[1], 0)) by {
        reveal_with_fuel(has_pair_from, 22);
    }
    lemma_pair_blocks("PixtralImageProcessor"@, "MarigoldImageProcessor"@, 0);
    reveal_strlit("JoyImageEditImageProcessor");
    assert(!has_pair_from("PixtralImageProcessor"@, "JoyImageEditImageProcessor"@[0], "JoyImageEditImageProcessor"@[1], 0)) by {
        reveal_with_fuel(has_pair_from, 22);
    }
    lemma_pair_blocks("PixtralImageProcessor"@, "JoyImageEditImageProcessor"@, 0);
    reveal_strlit("WanAnimateImageProcessor");
    assert(!has_pair_from("PixtralImageProcessor"@, "WanAnimateImageProcessor"@[0], "WanAnimateImageProcessor"@[1], 0)) by {
        reveal_with_fuel(has_pair_from, 22);
    }
    lemma_pair_blocks("PixtralImageProcessor"@, "WanAnimateImageProcessor"@, 0);
    reveal_strlit("LTX2VideoHDRProcessor");
    assert(!has_pair_from("PixtralImageProcessor"@, "LTX2VideoHDRProcessor"@[0], "LTX2VideoHDRProcessor"@[1], 0)) by {
        reveal_with_fuel(has_pair_from, 22);
    }
    lemma_pair_blocks("PixtralImageProcessor"@, "LTX2VideoHDRProcessor"@, 0);
    reveal_strlit("CLIPImageProcessor");
    assert(!has_pair_from("PixtralImageProcessor"@, "CLIPImageProcessor"@[0], "CLIPImageProcessor"@[1], 0)) by {
        reveal_with_fuel(has_pair_from, 22);
    }
    lemma_pair_blocks("PixtralImageProcessor"@, "CLIPImageProcessor"@, 0);
    reveal_strlit("VaeImageProcessorLDM3D");
    assert(!has_pair_from("PixtralImageProcessor"@, "VaeImageProcessorLDM3D"@[0], "VaeImageProcessorLDM3D"@[1], 0)) by {
        reveal_with_fuel(has_pair_from, 22);
    }
    lemma_pair_blocks("PixtralImageProcessor"@, "VaeImageProcessorLDM3D"@, 0);
    reveal_strlit("VaeImageProcessorLdm3d");
    assert(!has_pair_from("PixtralImageProcessor"@, "VaeImageProcessorLdm3d"@[0], "VaeImageProcessorLdm3d"@[1], 0)) by {
        reveal_with_fuel(has_pair_from, 22);
    }
    lemma_pair_blocks("PixtralImageProcessor"@, "VaeImageProcessorLdm3d"@, 0);
    reveal_strlit("VaeImageProcessor");
    assert(!has_pair_from("PixtralImageProcessor"@, "VaeImageProcessor"@[0], "VaeImageProcessor"@[1], 0)) by {
        reveal_with_fuel(has_pair_from, 22);
    }
    lemma_pair_blocks("PixtralImageProcessor"@, "VaeImageProcessor"@, 0);
    reveal_strlit("VideoMAE");
    assert(!has_pair_from("PixtralImageProcessor"@, "VideoMAE"@[0], "VideoMAE"@[1], 0)) by {
        reveal_with_fuel(has_pair_from, 22);
    }
    lemma_pair_blocks("PixtralImageProcessor"@, "VideoMAE"@, 0);
    reveal_strlit("Vivit");
    assert(!has_pair_from("PixtralImageProcessor"@, "Vivit"@[0], "Vivit"@[1], 0)) by {
        reveal_with_fuel(has_pair_from, 22);
    }
    lemma_pair_blocks("PixtralImageProcessor"@, "Vivit"@, 0);
    reveal_strlit("ViTImageProcessor");
    assert(!has_pair_from("PixtralImageProcessor"@, "ViTImageProcessor"@[0], "ViTImageProcessor"@[1], 0)) by {
        reveal_with_fuel(has_pair_from, 22);
    }
    lemma_pair_blocks("PixtralImageProcessor"@, "ViTImageProcessor"@, 0);
    reveal_strlit("LlavaNext");
    assert(!has_pair_from("PixtralImageProcessor"@, "LlavaNext"@[0], "LlavaNext"@[1], 0)) by {
        reveal_with_fuel(has_pair_from, 22);
    }
    lemma_pair_blocks("PixtralImageProcessor"@, "LlavaNext"@, 0);
    reveal_strlit("LLaVA-NeXT");
    assert(!has_pair_from("PixtralImageProcessor"@, "LLaVA-NeXT"@[0], "LLaVA-NeXT"@[1], 0)) by {
        reveal_with_fuel(has_pair_from, 22);
    }
    lemma_pair_blocks("PixtralImageProcessor"@, "LLaVA-NeXT"@, 0);
    reveal_strlit("Pixtral");
    assert("PixtralImageProcessor"@.subrange(0, 7) =~= "Pixtral"@);
    assert(occurs_at("PixtralImageProcessor"@, "Pixtral"@, 0));
}

/// The class name `Idefics3ImageProcessor` routes to its family.
proof fn lemma_idefics3_name_routes()
    ensures
        spec_route_processor_type("Idefics3ImageProcessor"@) == Some(ProcessorFamily::Idefics3),
{
    reveal_strlit("Idefics3ImageProcessor");
    reveal_strlit("BlipImageProcessor");
    assert(!has_pair_from("Idefics3ImageProcessor"@, "BlipImageProcessor"@[0], "BlipImageProcessor"@[1], 0)) by {
        reveal_with_fuel(has_pair_from, 23);
    }
    lemma_pair_blocks("Idefics3ImageProcessor"@, "BlipImageProcessor"@, 0);
    reveal_strlit("Flux2ImageProcessor");
    assert(!has_pair_from("Idefics3ImageProcessor"@, "Flux2ImageProcessor"@[0], "Flux2ImageProcessor"@[1], 0)) by {
        reveal_with_fuel(has_pair_from, 23);
    }
    lemma_pair_blocks("Idefics3ImageProcessor"@, "Flux2ImageProcessor"@, 0);
    reveal_strlit("VisualClozeProcessor");
    assert(!has_pair_from("Idefics3ImageProcessor"@, "VisualClozeProcessor"@[0], "VisualClozeProcessor"@[1], 0)) by {
        reveal_with_fuel(has_pair_from, 23);
    }
    lemma_pair_blocks("Idefics3ImageProcessor"@, "VisualClozeProcessor"@, 0);
    reveal_strlit("HunyuanVideo15ImageProcessor");
    assert(!has_pair_from("Idefics3ImageProcessor"@, "HunyuanVideo15ImageProcessor"@[0], "HunyuanVideo15ImageProcessor"@[1], 0)) by {
        reveal_with_fuel(has_pair_from, 23);
    }
    lemma_pair_blocks("Idefics3ImageProcessor"@, "HunyuanVideo15ImageProcessor"@, 0);
    reveal_strlit("MarigoldImageProcessor");
    assert(!has_pair_from("Idefics3ImageProcessor"@, "MarigoldImageProcessor"@[0], "MarigoldImageProcessor"@[1], 0)) by {
        reveal_with_fuel(has_pair_from, 23);
    }
    lemma_pair_blocks("Idefics3ImageProcessor"@, "MarigoldImageProcessor"@, 0);
    reveal_strlit("JoyImageEditImageProcessor");
    assert(!has_pair_from("Idefics3ImageProcessor"@, "JoyImageEditImageProcessor"@[0], "JoyImageEditImageProcessor"@[1], 0)) by {
        reveal_with_fuel(has_pair_from, 23);
    }
    lemma_pair_blocks("Idefics3ImageProcessor"@, "JoyImageEditImageProcessor"@, 0);
    reveal_strlit("WanAnimateImageProcessor");
    assert(!has_pair_from("Idefics3ImageProcessor"@, "WanAnimateImageProcessor"@[0], "WanAnimateImageProcessor"@[1], 0)) by {
        reveal_with_fuel(has_pair_from, 23);
    }
    lemma_pair_blocks("Idefics3ImageProcessor"@, "WanAnimateImageProcessor"@, 0);
    reveal_strlit("LTX2VideoHDRProcessor");
    assert(!has_pair_from("Idefics3ImageProcessor"@, "LTX2VideoHDRProcessor"@[0], "LTX2VideoHDRProcessor"@[1], 0)) by {
        reveal_with_fuel(has_pair_from, 23);
    }
    lemma_pair_blocks("Idefics3ImageProcessor"@, "LTX2VideoHDRProcessor"@, 0);
    reveal_strlit("CLIPImageProcessor");
    assert(!has_pair_from("Idefics3ImageProcessor"@, "CLIPImageProcessor"@[0], "CLIPImageProcessor"@[1], 0)) by {
        reveal_with_fuel(has_pair_from, 23);
    }
    lemma_pair_blocks("Idefics3ImageProcessor"@, "CLIPImageProcessor"@, 0);
    reveal_strlit("VaeImageProcessorLDM3D");
    assert(!has_pair_from("Idefics3ImageProcessor"@, "VaeImageProcessorLDM3D"@[0], "VaeImageProcessorLDM3D"@[1], 0)) by {
        reveal_with_fuel(has_pair_from, 23);
    }
    lemma_pair_blocks("Idefics3ImageProcessor"@, "VaeImageProcessorLDM3D"@, 0);
    reveal_strlit("VaeImageProcessorLdm3d");
    assert(!has_pair_from("Idefics3ImageProcessor"@, "VaeImageProcessorLdm3d"@[0], "VaeImageProcessorLdm3d"@[1], 0)) by {
        reveal_with_fuel(has_pair_from, 23);
    }
    lemma_pair_blocks("Idefics3ImageProcessor"@, "VaeImageProcessorLdm3d"@, 0);
    reveal_strlit("VaeImageProcessor");
    assert(!has_pair_from("Idefics3ImageProcessor"@, "VaeImageProcessor"@[0], "VaeImageProcessor"@[1], 0)) by {
        reveal_with_fuel(has_pair_from, 23);
    }
    lemma_pair_blocks("Idefics3ImageProcessor"@, "VaeImageProcessor"@, 0);
    reveal_strlit("VideoMAE");
    assert(!has_pair_from("Idefics3ImageProcessor"@, "VideoMAE"@[0], "VideoMAE"@[1], 0)) by {
        reveal_with_fuel(has_pair_from, 23);
    }
    lemma_pair_blocks("Idefics3ImageProcessor"@, "VideoMAE"@, 0);
    reveal_strlit("Vivit");
    assert(!has_pair_from("Idefics3ImageProcessor"@, "Vivit"@[0], "Vivit"@[1], 0)) by {
        reveal_with_fuel(has_pair_from, 23);
    }
    lemma_pair_blocks("Idefics3ImageProcessor"@, "Vivit"@, 0);
    reveal_strlit("ViTImageProcessor");
    assert(!has_pair_from("Idefics3ImageProcessor"@, "ViTImageProcessor"@[0], "ViTImageProcessor"@[1], 0)) by {
        reveal_with_fuel(has_pair_from, 23);
    }
    lemma_pair_blocks("Idefics3ImageProcessor"@, "ViTImageProcessor"@, 0);
    reveal_strlit("LlavaNext");
    assert(!has_pair_from("Idefics3ImageProcessor"@, "LlavaNext"@[0], "LlavaNext"@[1], 0)) by {
        reveal_with_fuel(has_pair_from, 23);
    }
    lemma_pair_blocks("Idefics3ImageProcessor"@, "LlavaNext"@, 0);
    reveal_strlit("LLaVA-NeXT");
    assert(!has_pair_from("Idefics3ImageProcessor"@, "LLaVA-NeXT"@[0], "LLaVA-NeXT"@[1], 0)) by {
        reveal_with_fuel(has_pair_from, 23);
    }
    lemma_pair_blocks("Idefics3ImageProcessor"@, "LLaVA-NeXT"@, 0);
    reveal_strlit("Pixtral");
    assert(!has_pair_from("Idefics3ImageProcessor"@, "Pixtral"@[0], "Pixtral"@[1], 0)) by {
        reveal_with_fuel(has_pair_from, 23);
    }
    lemma_pair_blocks("Idefics3ImageProcessor"@, "Pixtral"@, 0);
    reveal_strlit("Idefics3");
    assert("Idefics3ImageProcessor"@.subrange(0, 8) =~= "Idefics3"@);
    assert(occurs_at("Idefics3ImageProcessor"@, "Idefics3"@, 0));
}

/// The class name `Gemma3ImageProcessor` routes to its family.
proof fn lemma_gemma3_name_routes()
    ensures
        spec_route_processor_type("Gemma3ImageProcessor"@) == Some(ProcessorFamily::Gemma3),
{
    reveal_strlit("Gemma3ImageProcessor");
    reveal_strlit("BlipImageProcessor");
    assert(!has_pair_from("Gemma3ImageProcessor"@, "BlipImageProcessor"@[0], "BlipImageProcessor"@[1], 0)) by {
        reveal_with_fuel(has_pair_from, 21);
    }
    lemma_pair_blocks("Gemma3ImageProcessor"@, "BlipImageProcessor"@, 0);
    reveal_strlit("Flux2ImageProcessor");
    assert(!has_pair_from("Gemma3ImageProcessor"@, "Flux2ImageProcessor"@[0], "Flux2ImageProcessor"@[1], 0)) by {
        reveal_with_fuel(has_pair_from, 21);
    }
    lemma_pair_blocks("Gemma3ImageProcessor"@, "Flux2ImageProcessor"@, 0);
    reveal_strlit("VisualClozeProcessor");
    assert(!has_pair_from("Gemma3ImageProcessor"@, "VisualClozeProcessor"@[0], "VisualClozeProcessor"@[1], 0)) by {
        reveal_with_fuel(has_pair_from, 21);
    }
    lemma_pair_blocks("Gemma3ImageProcessor"@, "VisualClozeProcessor"@, 0);
    reveal_strlit("HunyuanVideo15ImageProcessor");
    assert(!has_pair_from("Gemma3ImageProcessor"@, "HunyuanVideo15ImageProcessor"@[0], "HunyuanVideo15ImageProcessor"@[1], 0)) by {
        reveal_with_fuel(has_pair_from, 21);
    }
    lemma_pair_blocks("Gemma3ImageProcessor"@, "HunyuanVideo15ImageProcessor"@, 0);
    reveal_strlit("MarigoldImageProcessor");
    assert(!has_pair_from("Gemma3ImageProcessor"@, "MarigoldImageProcessor"@[0], "MarigoldImageProcessor"@[1], 0)) by {
        reveal_with_fuel(has_pair_from, 21);
    }
    lemma_pair_blocks("Gemma3ImageProcessor"@, "MarigoldImageProcessor"@, 0);
    reveal_strlit("JoyImageEditImageProcessor");
    assert(!has_pair_from("Gemma3ImageProcessor"@, "JoyImageEditImageProcessor"@[0], "JoyImageEditImageProcessor"@[1], 0)) by {
        reveal_with_fuel(has_pair_from, 21);
    }
    lemma_pair_blocks("Gemma3ImageProcessor"@, "JoyImageEditImageProcessor"@, 0);
    reveal_strlit("WanAnimateImageProcessor");
    assert(!has_pair_from("Gemma3ImageProcessor"@, "WanAnimateImageProcessor"@[0], "WanAnimateImageProcessor"@[1], 0)) by {
        reveal_with_fuel(has_pair_from, 21);
    }
    lemma_pair_blocks("Gemma3ImageProcessor"@, "WanAnimateImageProcessor"@, 0);
    reveal_strlit("LTX2VideoHDRProcessor");
    assert(!has_pair_from("Gemma3ImageProcessor"@, "LTX2VideoHDRProcessor"@[0], "LTX2VideoHDRProcessor"@[1], 0)) by {
        reveal_with_fuel(has_pair_from, 21);
    }
    lemma_pair_blocks("Gemma3ImageProcessor"@, "LTX2VideoHDRProcessor"@, 0);
    reveal_strlit("CLIPImageProcessor");
    assert(!has_pair_from("Gemma3ImageProcessor"@, "CLIPImageProcessor"@[0], "CLIPImageProcessor"@[1], 0)) by {
        reveal_with_fuel(has_pair_from, 21);
    }
    lemma_pair_blocks("Gemma3ImageProcessor"@, "CLIPImageProcessor"@, 0);
    reveal_strlit("VaeImageProcessorLDM3D");
    assert(!has_pair_from("Gemma3ImageProcessor"@, "VaeImageProcessorLDM3D"@[0], "VaeImageProcessorLDM3D"@[1], 0)) by {
        reveal_with_fuel(has_pair_from, 21);
    }
    lemma_pair_blocks("Gemma3ImageProcessor"@, "VaeImageProcessorLDM3D"@, 0);
    reveal_strlit("VaeImageProcessorLdm3d");
    assert(!has_pair_from("Gemma3ImageProcessor"@, "VaeImageProcessorLdm3d"@[0], "VaeImageProcessorLdm3d"@[1], 0)) by {
        reveal_with_fuel(has_pair_from, 21);
    }
    lemma_pair_blocks("Gemma3ImageProcessor"@, "VaeImageProcessorLdm3d"@, 0);
    reveal_strlit("VaeImageProcessor");
    assert(!has_pair_from("Gemma3ImageProcessor"@, "VaeImageProcessor"@[0], "VaeImageProcessor"@[1], 0)) by {
        reveal_with_fuel(has_pair_from, 21);
    }
    lemma_pair_blocks("Gemma3ImageProcessor"@, "VaeImageProcessor"@, 0);
    reveal_strlit("VideoMAE");
    assert(!has_pair_from("Gemma3ImageProcessor"@, "VideoMAE"@[0], "VideoMAE"@[1], 0)) by {
        reveal_with_fuel(has_pair_from, 21);
    }
    lemma_pair_blocks("Gemma3ImageProcessor"@, "VideoMAE"@, 0);
    reveal_strlit("Vivit");
    assert(!has_pair_from("Gemma3ImageProcessor"@, "Vivit"@[0], "Vivit"@[1], 0)) by {
        reveal_with_fuel(has_pair_from, 21);
    }
    lemma_pair_blocks("Gemma3ImageProcessor"@, "Vivit"@, 0);
    reveal_strlit("ViTImageProcessor");
    assert(!has_pair_from("Gemma3ImageProcessor"@, "ViTImageProcessor"@[0], "ViTImageProcessor"@[1], 0)) by {
        reveal_with_fuel(has_pair_from, 21);
    }
    lemma_pair_blocks("Gemma3ImageProcessor"@, "ViTImageProcessor"@, 0);
    reveal_strlit("LlavaNext");
    assert(!has_pair_from("Gemma3ImageProcessor"@, "LlavaNext"@[0], "LlavaNext"@[1], 0)) by {
        reveal_with_fuel(has_pair_from, 21);
    }
    lemma_pair_blocks("Gemma3ImageProcessor"@, "LlavaNext"@, 0);
    reveal_strlit("LLaVA-NeXT");
    assert(!has_pair_from("Gemma3ImageProcessor"@, "LLaVA-NeXT"@[0], "LLaVA-NeXT"@[1], 0)) by {
        reveal_with_fuel(has_pair_from, 21);
    }
    lemma_pair_blocks("Gemma3ImageProcessor"@, "LLaVA-NeXT"@, 0);
    reveal_strlit("Pixtral");
    assert(!has_pair_from("Gemma3ImageProcessor"@, "Pixtral"@[0], "Pixtral"@[1], 0)) by {
        reveal_with_fuel(has_pair_from, 21);
    }
    lemma_pair_blocks("Gemma3ImageProcessor"@, "Pixtral"@, 0);
    reveal_strlit("Idefics3");
    assert(!has_pair_from("Gemma3ImageProcessor"@, "Idefics3"@[0], "Idefics3"@[1], 0)) by {
        reveal_with_fuel(has_pair_from, 21);
    }
    lemma_pair_blocks("Gemma3ImageProcessor"@, "Idefics3"@, 0);
    reveal_strlit("Gemma3");
    assert("Gemma3ImageProcessor"@.subrange(0, 6) =~= "Gemma3"@);
    assert(occurs_at("Gemma3ImageProcessor"@, "Gemma3"@, 0));
}

/// The class name `MllamaImageProcessor` routes to its family.
proof fn lemma_mllama_name_routes()
    ensures
        spec_route_processor_type("MllamaImageProcessor"@) == Some(ProcessorFamily::Mllama),
{
    reveal_strlit("MllamaImageProcessor");
    reveal_strlit("BlipImageProcessor");
    assert(!has_pair_from("MllamaImageProcessor"@, "BlipImageProcessor"@[0], "BlipImageProcessor"@[1], 0)) by {
        reveal_with_fuel(has_pair_from, 21);
    }
    lemma_pair_blocks("MllamaImageProcessor"@, "BlipImageProcessor"@, 0);
    reveal_strlit("Flux2ImageProcessor");
    assert(!has_pair_from("MllamaImageProcessor"@, "Flux2ImageProcessor"@[0], "Flux2ImageProcessor"@[1], 0)) by {
        reveal_with_fuel(has_pair_from, 21);
    }
    lemma_pair_blocks("MllamaImageProcessor"@, "Flux2ImageProcessor"@, 0);
    reveal_strlit("VisualClozeProcessor");
    assert(!has_pair_from("MllamaImageProcessor"@, "VisualClozeProcessor"@[0], "VisualClozeProcessor"@[1], 0)) by {
        reveal_with_fuel(has_pair_from, 21);
    }
    lemma_pair_blocks("MllamaImageProcessor"@, "VisualClozeProcessor"@, 0);
    reveal_strlit("HunyuanVideo15ImageProcessor");
    assert(!has_pair_from("MllamaImageProcessor"@, "HunyuanVideo15ImageProcessor"@[0], "HunyuanVideo15ImageProcessor"@[1], 0)) by {
        reveal_with_fuel(has_pair_from, 21);
    }
    lemma_pair_blocks("MllamaImageProcessor"@, "HunyuanVideo15ImageProcessor"@, 0);
    reveal_strlit("MarigoldImageProcessor");
    assert(!has_pair_from("MllamaImageProcessor"@, "MarigoldImageProcessor"@[0], "MarigoldImageProcessor"@[1], 0)) by {
        reveal_with_fuel(has_pair_from, 21);
    }
    lemma_pair_blocks("MllamaImageProcessor"@, "MarigoldImageProcessor"@, 0);
    reveal_strlit("JoyImageEditImageProcessor");
    assert(!has_pair_from("MllamaImageProcessor"@, "JoyImageEditImageProcessor"@[0], "JoyImageEditImageProcessor"@[1], 0)) by {
        reveal_with_fuel(has_pair_from, 21);
    }
    lemma_pair_blocks("MllamaImageProcessor"@, "JoyImageEditImageProcessor"@, 0);
    reveal_strlit("WanAnimateImageProcessor");
    assert(!has_pair_from("MllamaImageProcessor"@, "WanAnimateImageProcessor"@[0], "WanAnimateImageProcessor"@[1], 0)) by {
        reveal_with_fuel(has_pair_from, 21);
    }
    lemma_pair_blocks("MllamaImageProcessor"@, "WanAnimateImageProcessor"@, 0);
    reveal_strlit("LTX2VideoHDRProcessor");
    assert(!has_pair_from("MllamaImageProcessor"@, "LTX2VideoHDRProcessor"@[0], "LTX2VideoHDRProcessor"@[1], 0)) by {
        reveal_with_fuel(has_pair_from, 21);
    }
    lemma_pair_blocks("MllamaImageProcessor"@, "LTX2VideoHDRProcessor"@, 0);
    reveal_strlit("CLIPImageProcessor");
    assert(!has_pair_from("MllamaImageProcessor"@, "CLIPImageProcessor"@[0], "CLIPImageProcessor"@[1], 0)) by {
        reveal_with_fuel(has_pair_from, 21);
    }
    lemma_pair_blocks("MllamaImageProcessor"@, "CLIPImageProcessor"@, 0);
    reveal_strlit("VaeImageProcessorLDM3D");
    assert(!has_pair_from("MllamaImageProcessor"@, "VaeImageProcessorLDM3D"@[0], "VaeImageProcessorLDM3D"@[1], 0)) by {
        reveal_with_fuel(has_pair_from, 21);
    }
    lemma_pair_blocks("MllamaImageProcessor"@, "VaeImageProcessorLDM3D"@, 0);
    reveal_strlit("VaeImageProcessorLdm3d");
    assert(!has_pair_from("MllamaImageProcessor"@, "VaeImageProcessorLdm3d"@[0], "VaeImageProcessorLdm3d"@[1], 0)) by {
        reveal_with_fuel(has_pair_from, 21);
    }
    lemma_pair_blocks("MllamaImageProcessor"@, "VaeImageProcessorLdm3d"@, 0);
    reveal_strlit("VaeImageProcessor");
    assert(!has_pair_from("MllamaImageProcessor"@, "VaeImageProcessor"@[0], "VaeImageProcessor"@[1], 0)) by {
        reveal_with_fuel(has_pair_from, 21);
    }
    lemma_pair_blocks("MllamaImageProcessor"@, "VaeImageProcessor"@, 0);
    reveal_strlit("VideoMAE");
    assert(!has_pair_from("MllamaImageProcessor"@, "VideoMAE"@[0], "VideoMAE"@[1], 0)) by {
        reveal_with_fuel(has_pair_from, 21);
    }
    lemma_pair_blocks("MllamaImageProcessor"@, "VideoMAE"@, 0);
    reveal_strlit("Vivit");
    assert(!has_pair_from("MllamaImageProcessor"@, "Vivit"@[0], "Vivit"@[1], 0)) by {
        reveal_with_fuel(has_pair_from, 21);
    }
    lemma_pair_blocks("MllamaImageProcessor"@, "Vivit"@, 0);
    reveal_strlit("ViTImageProcessor");
    assert(!has_pair_from("MllamaImageProcessor"@, "ViTImageProcessor"@[0], "ViTImageProcessor"@[1], 0)) by {
        reveal_with_fuel(has_pair_from, 21);
    }
    lemma_pair_blocks("MllamaImageProcessor"@, "ViTImageProcessor"@, 0);
    reveal_strlit("LlavaNext");
    assert(!has_pair_from("MllamaImageProcessor"@, "LlavaNext"@[0], "LlavaNext"@[1], 0)) by {
        reveal_with_fuel(has_pair_from, 21);
    }
    lemma_pair_blocks("MllamaImageProcessor"@, "LlavaNext"@, 0);
    reveal_strlit("LLaVA-NeXT");
    assert(!has_pair_from("MllamaImageProcessor"@, "LLaVA-NeXT"@[0], "LLaVA-NeXT"@[1], 0)) by {
        reveal_with_fuel(has_pair_from, 21);
    }
    lemma_pair_blocks("MllamaImageProcessor"@, "LLaVA-NeXT"@, 0);
    reveal_strlit("Pixtral");
    assert(!has_pair_from("MllamaImageProcessor"@, "Pixtral"@[0], "Pixtral"@[1], 0)) by {
        reveal_with_fuel(has_pair_from, 21);
    }
    lemma_pair_blocks("MllamaImageProcessor"@, "Pixtral"@, 0);
    reveal_strlit("Idefics3");
    assert(!has_pair_from("MllamaImageProcessor"@, "Idefics3"@[0], "Idefics3"@[1], 0)) by {
        reveal_with_fuel(has_pair_from, 21);
    }
    lemma_pair_blocks("MllamaImageProcessor"@, "Idefics3"@, 0);
    reveal_strlit("Gemma3");
    assert(!has_pair_from("MllamaImageProcessor"@, "Gemma3"@[0], "Gemma3"@[1], 0)) by {
        reveal_with_fuel(has_pair_from, 21);
    }
    lemma_pair_blocks("MllamaImageProcessor"@, "Gemma3"@, 0);
    reveal_strlit("Mllama");
    assert("MllamaImageProcessor"@.subrange(0, 6) =~= "Mllama"@);
    assert(occurs_at("MllamaImageProcessor"@, "Mllama"@, 0));
}

/// The class name `Qwen2VLImageProcessor` routes to its family.
proof fn lemma_qwen_vl_name_routes()
    ensures
        spec_route_processor_type("Qwen2VLImageProcessor"@) == Some(ProcessorFamily::QwenVl),
{
    reveal_strlit("Qwen2VLImageProcessor");
    reveal_strlit("BlipImageProcessor");
    assert(!has_pair_from("Qwen2VLImageProcessor"@, "BlipImageProcessor"@[0], "BlipImageProcessor"@[1], 0)) by {
        reveal_with_fuel(has_pair_from, 22);
    }
    lemma_pair_blocks("Qwen2VLImageProcessor"@, "BlipImageProcessor"@, 0);
    reveal_strlit("Flux2ImageProcessor");
    assert(!has_pair_from("Qwen2VLImageProcessor"@, "Flux2ImageProcessor"@[0], "Flux2ImageProcessor"@[1], 0)) by {
        reveal_with_fuel(has_pair_from, 22);
    }
    lemma_pair_blocks("Qwen2VLImageProcessor"@, "Flux2ImageProcessor"@, 0);
    reveal_strlit("VisualClozeProcessor");
    assert(!has_pair_from("Qwen2VLImageProcessor"@, "VisualClozeProcessor"@[0], "VisualClozeProcessor"@[1], 0)) by {
        reveal_with_fuel(has_pair_from, 22);
    }
    lemma_pair_blocks("Qwen2VLImageProcessor"@, "VisualClozeProcessor"@, 0);
    reveal_strlit("HunyuanVideo15ImageProcessor");
    assert(!has_pair_from("Qwen2VLImageProcessor"@, "HunyuanVideo15ImageProcessor"@[0], "HunyuanVideo15ImageProcessor"@[1], 0)) by {
        reveal_with_fuel(has_pair_from, 22);
    }
    lemma_pair_blocks("Qwen2VLImageProcessor"@, "HunyuanVideo15ImageProcessor"@, 0);
    reveal_strlit("MarigoldImageProcessor");
    assert(!has_pair_from("Qwen2VLImageProcessor"@, "MarigoldImageProcessor"@[0], "MarigoldImageProcessor"@[1], 0)) by {
        reveal_with_fuel(has_pair_from, 22);
    }
    lemma_pair_blocks("Qwen2VLImageProcessor"@, "MarigoldImageProcessor"@, 0);
    reveal_strlit("JoyImageEditImageProcessor");
    assert(!has_pair_from("Qwen2VLImageProcessor"@, "JoyImageEditImageProcessor"@[0], "JoyImageEditImageProcessor"@[1], 0)) by {
        reveal_with_fuel(has_pair_from, 22);
    }
    lemma_pair_blocks("Qwen2VLImageProcessor"@, "JoyImageEditImageProcessor"@, 0);
    reveal_strlit("WanAnimateImageProcessor");
    assert(!has_pair_from("Qwen2VLImageProcessor"@, "WanAnimateImageProcessor"@[0], "WanAnimateImageProcessor"@[1], 0)) by {
        reveal_with_fuel(has_pair_from, 22);
    }
    lemma_pair_blocks("Qwen2VLImageProcessor"@, "WanAnimateImageProcessor"@, 0);
    reveal_strlit("LTX2VideoHDRProcessor");
    assert(!has_pair_from("Qwen2VLImageProcessor"@, "LTX2VideoHDRProcessor"@[0], "LTX2VideoHDRProcessor"@[1], 0)) by {
        reveal_with_fuel(has_pair_from, 22);
    }
    lemma_pair_blocks("Qwen2VLImageProcessor"@, "LTX2VideoHDRProcessor"@, 0);
    reveal_strlit("CLIPImageProcessor");
    assert(!has_pair_from("Qwen2VLImageProcessor"@, "CLIPImageProcessor"@[0], "CLIPImageProcessor"@[1], 0)) by {
        reveal_with_fuel(has_pair_from, 22);
    }
    lemma_pair_blocks("Qwen2VLImageProcessor"@, "CLIPImageProcessor"@, 0);
    reveal_strlit("VaeImageProcessorLDM3D");
    assert(!has_pair_from("Qwen2VLImageProcessor"@, "VaeImageProcessorLDM3D"@[0], "VaeImageProcessorLDM3D"@[1], 0)) by {
        reveal_with_fuel(has_pair_from, 22);
    }
    lemma_pair_blocks("Qwen2VLImageProcessor"@, "VaeImageProcessorLDM3D"@, 0);
    reveal_strlit("VaeImageProcessorLdm3d");
    assert(!has_pair_from("Qwen2VLImageProcessor"@, "VaeImageProcessorLdm3d"@[0], "VaeImageProcessorLdm3d"@[1], 0)) by {
        reveal_with_fuel(has_pair_from, 22);
    }
    lemma_pair_blocks("Qwen2VLImageProcessor"@, "VaeImageProcessorLdm3d"@, 0);
    reveal_strlit("VaeImageProcessor");
    assert(!has_pair_from("Qwen2VLImageProcessor"@, "VaeImageProcessor"@[0], "VaeImageProcessor"@[1], 0)) by {
        reveal_with_fuel(has_pair_from, 22);
    }
    lemma_pair_blocks("Qwen2VLImageProcessor"@, "VaeImageProcessor"@, 0);
    reveal_strlit("VideoMAE");
    assert(!has_pair_from("Qwen2VLImageProcessor"@, "VideoMAE"@[0], "VideoMAE"@[1], 0)) by {
        reveal_with_fuel(has_pair_from, 22);
    }
    lemma_pair_blocks("Qwen2VLImageProcessor"@, "VideoMAE"@, 0);
    reveal_strlit("Vivit");
    assert(!has_pair_from("Qwen2VLImageProcessor"@, "Vivit"@[0], "Vivit"@[1], 0)) by {
        reveal_with_fuel(has_pair_from, 22);
    }
    lemma_pair_blocks("Qwen2VLImageProcessor"@, "Vivit"@, 0);
    reveal_strlit("ViTImageProcessor");
    assert(!has_pair_from("Qwen2VLImageProcessor"@, "ViTImageProcessor"@[0], "ViTImageProcessor"@[1], 0)) by {
        reveal_with_fuel(has_pair_from, 22);
    }
    lemma_pair_blocks("Qwen2VLImageProcessor"@, "ViTImageProcessor"@, 0);
    reveal_strlit("LlavaNext");
    assert(!has_pair_from("Qwen2VLImageProcessor"@, "LlavaNext"@[0], "LlavaNext"@[1], 0)) by {
        reveal_with_fuel(has_pair_from, 22);
    }
    lemma_pair_blocks("Qwen2VLImageProcessor"@, "LlavaNext"@, 0);
    reveal_strlit("LLaVA-NeXT");
    assert(!has_pair_from("Qwen2VLImageProcessor"@, "LLaVA-NeXT"@[0], "LLaVA-NeXT"@[1], 0)) by {
        reveal_with_fuel(has_pair_from, 22);
    }
    lemma_pair_blocks("Qwen2VLImageProcessor"@, "LLaVA-NeXT"@, 0);
    reveal_strlit("Pixtral");
    assert(!has_pair_from("Qwen2VLImageProcessor"@, "Pixtral"@[0], "Pixtral"@[1], 0)) by {
        reveal_with_fuel(has_pair_from, 22);
    }
    lemma_pair_blocks("Qwen2VLImageProcessor"@, "Pixtral"@, 0);
    reveal_strlit("Idefics3");
    assert(!has_pair_from("Qwen2VLImageProcessor"@, "Idefics3"@[0], "Idefics3"@[1], 0)) by {
        reveal_with_fuel(has_pair_from, 22);
    }
    lemma_pair_blocks("Qwen2VLImageProcessor"@, "Idefics3"@, 0);
    reveal_strlit("Gemma3");
    assert(!has_pair_from("Qwen2VLImageProcessor"@, "Gemma3"@[0], "Gemma3"@[1], 0)) by {
        reveal_with_fuel(has_pair_from, 22);
    }
    lemma_pair_blocks("Qwen2VLImageProcessor"@, "Gemma3"@, 0);
    reveal_strlit("Mllama");
    assert(!has_pair_from("Qwen2VLImageProcessor"@, "Mllama"@[0], "Mllama"@[1], 0)) by {
        reveal_with_fuel(has_pair_from, 22);
    }
    lemma_pair_blocks("Qwen2VLImageProcessor"@, "Mllama"@, 0);
    reveal_strlit("Qwen");
    assert("Qwen2VLImageProcessor"@.subrange(0, 4) =~= "Qwen"@);
    assert(occurs_at("Qwen2VLImageProcessor"@, "Qwen"@, 0));
}

/// The class name `DetrImageProcessor` routes to its family.
proof fn lemma_detr_name_routes()
    ensures
        spec_route_processor_type("DetrImageProcessor"@) == Some(ProcessorFamily::Detr),
{
    reveal_strlit("DetrImageProcessor");
    reveal_strlit("BlipImageProcessor");
    assert(!has_pair_from("DetrImageProcessor"@, "BlipImageProcessor"@[0], "BlipImageProcessor"@[1], 0)) by {
        reveal_with_fuel(has_pair_from, 19);
    }
    lemma_pair_blocks("DetrImageProcessor"@, "BlipImageProcessor"@, 0);
    reveal_strlit("Flux2ImageProcessor");
    assert(!has_pair_from("DetrImageProcessor"@, "Flux2ImageProcessor"@[0], "Flux2ImageProcessor"@[1], 0)) by {
        reveal_with_fuel(has_pair_from, 19);
    }
    lemma_pair_blocks("DetrImageProcessor"@, "Flux2ImageProcessor"@, 0);
    reveal_strlit("VisualClozeProcessor");
    assert(!has_pair_from("DetrImageProcessor"@, "VisualClozeProcessor"@[0], "VisualClozeProcessor"@[1], 0)) by {
        reveal_with_fuel(has_pair_from, 19);
    }
    lemma_pair_blocks("DetrImageProcessor"@, "VisualClozeProcessor"@, 0);
    reveal_strlit("HunyuanVideo15ImageProcessor");
    assert(!has_pair_from("DetrImageProcessor"@, "HunyuanVideo15ImageProcessor"@[0], "HunyuanVideo15ImageProcessor"@[1], 0)) by {
        reveal_with_fuel(has_pair_from, 19);
    }
    lemma_pair_blocks("DetrImageProcessor"@, "HunyuanVideo15ImageProcessor"@, 0);
    reveal_strlit("MarigoldImageProcessor");
    assert(!has_pair_from("DetrImageProcessor"@, "MarigoldImageProcessor"@[0], "MarigoldImageProcessor"@[1], 0)) by {
        reveal_with_fuel(has_pair_from, 19);
    }
    lemma_pair_blocks("DetrImageProcessor"@, "MarigoldImageProcessor"@, 0);
    reveal_strlit("JoyImageEditImageProcessor");
    assert(!has_pair_from("DetrImageProcessor"@, "JoyImageEditImageProcessor"@[0], "JoyImageEditImageProcessor"@[1], 0)) by {
        reveal_with_fuel(has_pair_from, 19);
    }
    lemma_pair_blocks("DetrImageProcessor"@, "JoyImageEditImageProcessor"@, 0);
    reveal_strlit("WanAnimateImageProcessor");
    assert(!has_pair_from("DetrImageProcessor"@, "WanAnimateImageProcessor"@[0], "WanAnimateImageProcessor"@[1], 0)) by {
        reveal_with_fuel(has_pair_from, 19);
    }
    lemma_pair_blocks("DetrImageProcessor"@, "WanAnimateImageProcessor"@, 0);
    reveal_strlit("LTX2VideoHDRProcessor");
    assert(!has_pair_from("DetrImageProcessor"@, "LTX2VideoHDRProcessor"@[0], "LTX2VideoHDRProcessor"@[1], 0)) by {
        reveal_with_fuel(has_pair_from, 19);
    }
    lemma_pair_blocks("DetrImageProcessor"@, "LTX2VideoHDRProcessor"@, 0);
    reveal_strlit("CLIPImageProcessor");
    assert(!has_pair_from("DetrImageProcessor"@, "CLIPImageProcessor"@[0], "CLIPImageProcessor"@[1], 0)) by {
        reveal_with_fuel(has_pair_from, 19);
    }
    lemma_pair_blocks("DetrImageProcessor"@, "CLIPImageProcessor"@, 0);
    reveal_strlit("VaeImageProcessorLDM3D");
    assert(!has_pair_from("DetrImageProcessor"@, "VaeImageProcessorLDM3D"@[0], "VaeImageProcessorLDM3D"@[1], 0)) by {
        reveal_with_fuel(has_pair_from, 19);
    }
    lemma_pair_blocks("DetrImageProcessor"@, "VaeImageProcessorLDM3D"@, 0);
    reveal_strlit("VaeImageProcessorLdm3d");
    assert(!has_pair_from("DetrImageProcessor"@, "VaeImageProcessorLdm3d"@[0], "VaeImageProcessorLdm3d"@[1], 0)) by {
        reveal_with_fuel(has_pair_from, 19);
    }
    lemma_pair_blocks("DetrImageProcessor"@, "VaeImageProcessorLdm3d"@, 0);
    reveal_strlit("VaeImageProcessor");
    assert(!has_pair_from("DetrImageProcessor"@, "VaeImageProcessor"@[0], "VaeImageProcessor"@[1], 0)) by {
        reveal_with_fuel(has_pair_from, 19);
    }
    lemma_pair_blocks("DetrImageProcessor"@, "VaeImageProcessor"@, 0);
    reveal_strlit("VideoMAE");
    assert(!has_pair_from("DetrImageProcessor"@, "VideoMAE"@[0], "VideoMAE"@[1], 0)) by {
        reveal_with_fuel(has_pair_from, 19);
    }
    lemma_pair_blocks("DetrImageProcessor"@, "VideoMAE"@, 0);
    reveal_strlit("Vivit");
    assert(!has_pair_from("DetrImageProcessor"@, "Vivit"@[0], "Vivit"@[1], 0)) by {
        reveal_with_fuel(has_pair_from, 19);
    }
    lemma_pair_blocks("DetrImageProcessor"@, "Vivit"@, 0);
    reveal_strlit("ViTImageProcessor");
    assert(!has_pair_from("DetrImageProcessor"@, "ViTImageProcessor"@[0], "ViTImageProcessor"@[1], 0)) by {
        reveal_with_fuel(has_pair_from, 19);
    }
    lemma_pair_blocks("DetrImageProcessor"@, "ViTImageProcessor"@, 0);
    reveal_strlit("LlavaNext");
    assert(!has_pair_from("DetrImageProcessor"@, "LlavaNext"@[0], "LlavaNext"@[1], 0)) by {
        reveal_with_fuel(has_pair_from, 19);
    }
    lemma_pair_blocks("DetrImageProcessor"@, "LlavaNext"@, 0);
    reveal_strlit("LLaVA-NeXT");
    assert(!has_pair_from("DetrImageProcessor"@, "LLaVA-NeXT"@[0], "LLaVA-NeXT"@[1], 0)) by {
        reveal_with_fuel(has_pair_from, 19);
    }
    lemma_pair_blocks("DetrImageProcessor"@, "LLaVA-NeXT"@, 0);
    reveal_strlit("Pixtral");
    assert(!has_pair_from("DetrImageProcessor"@, "Pixtral"@[0], "Pixtral"@[1], 0)) by {
        reveal_with_fuel(has_pair_from, 19);
    }
    lemma_pair_blocks("DetrImageProcessor"@, "Pixtral"@, 0);
    reveal_strlit("Idefics3");
    assert(!has_pair_from("DetrImageProcessor"@, "Idefics3"@[0], "Idefics3"@[1], 0)) by {
        reveal_with_fuel(has_pair_from, 19);
    }
    lemma_pair_blocks("DetrImageProcessor"@, "Idefics3"@, 0);
    reveal_strlit("Gemma3");
    assert(!has_pair_from("DetrImageProcessor"@, "Gemma3"@[0], "Gemma3"@[1], 0)) by {
        reveal_with_fuel(has_pair_from, 19);
    }
    lemma_pair_blocks("DetrImageProcessor"@, "Gemma3"@, 0);
    reveal_strlit("Mllama");
    assert(!has_pair_from("DetrImageProcessor"@, "Mllama"@[0], "Mllama"@[1], 0)) by {
        reveal_with_fuel(has_pair_from, 19);
    }
    lemma_pair_blocks("DetrImageProcessor"@, "Mllama"@, 0);
    reveal_strlit("Qwen");
    assert(!has_pair_from("DetrImageProcessor"@, "Qwen"@[0], "Qwen"@[1], 0)) by {
        reveal_with_fuel(has_pair_from, 19);
    }
    lemma_pair_blocks("DetrImageProcessor"@, "Qwen"@, 0);
    reveal_strlit("DetrImageProcessor");
    assert("DetrImageProcessor"@.subrange(0, 18) =~= "DetrImageProcessor"@);
    assert(occurs_at("DetrImageProcessor"@, "DetrImageProcessor"@, 0));
}

/// The class name `SamImageProcessor` routes to its family.
proof fn lemma_sam_name_routes()
    ensures
        spec_route_processor_type("SamImageProcessor"@) == Some(ProcessorFamily::Sam),
{
    reveal_strlit("SamImageProcessor");
    reveal_strlit("BlipImageProcessor");
    assert(!has_pair_from("SamImageProcessor"@, "BlipImageProcessor"@[0], "BlipImageProcessor"@[1], 0)) by {
        reveal_with_fuel(has_pair_from, 18);
    }
    lemma_pair_blocks("SamImageProcessor"@, "BlipImageProcessor"@, 0);
    reveal_strlit("Flux2ImageProcessor");
    assert(!has_pair_from("SamImageProcessor"@, "Flux2ImageProcessor"@[0], "Flux2ImageProcessor"@[1], 0)) by {
        reveal_with_fuel(has_pair_from, 18);
    }
    lemma_pair_blocks("SamImageProcessor"@, "Flux2ImageProcessor"@, 0);
    reveal_strlit("VisualClozeProcessor");
    assert(!has_pair_from("SamImageProcessor"@, "VisualClozeProcessor"@[0], "VisualClozeProcessor"@[1], 0)) by {
        reveal_with_fuel(has_pair_from, 18);
    }
    lemma_pair_blocks("SamImageProcessor"@, "VisualClozeProcessor"@, 0);
    reveal_strlit("HunyuanVideo15ImageProcessor");
    assert(!has_pair_from("SamImageProcessor"@, "HunyuanVideo15ImageProcessor"@[0], "HunyuanVideo15ImageProcessor"@[1], 0)) by {
        reveal_with_fuel(has_pair_from, 18);
    }
    lemma_pair_blocks("SamImageProcessor"@, "HunyuanVideo15ImageProcessor"@, 0);
    reveal_strlit("MarigoldImageProcessor");
    assert(!has_pair_from("SamImageProcessor"@, "MarigoldImageProcessor"@[0], "MarigoldImageProcessor"@[1], 0)) by {
        reveal_with_fuel(has_pair_from, 18);
    }
    lemma_pair_blocks("SamImageProcessor"@, "MarigoldImageProcessor"@, 0);
    reveal_strlit("JoyImageEditImageProcessor");
    assert(!has_pair_from("SamImageProcessor"@, "JoyImageEditImageProcessor"@[0], "JoyImageEditImageProcessor"@[1], 0)) by {
        reveal_with_fuel(has_pair_from, 18);
    }
    lemma_pair_blocks("SamImageProcessor"@, "JoyImageEditImageProcessor"@, 0);
    reveal_strlit("WanAnimateImageProcessor");
    assert(!has_pair_from("SamImageProcessor"@, "WanAnimateImageProcessor"@[0], "WanAnimateImageProcessor"@[1], 0)) by {
        reveal_with_fuel(has_pair_from, 18);
    }
    lemma_pair_blocks("SamImageProcessor"@, "WanAnimateImageProcessor"@, 0);
    reveal_strlit("LTX2VideoHDRProcessor");
    assert(!has_pair_from("SamImageProcessor"@, "LTX2VideoHDRProcessor"@[0], "LTX2VideoHDRProcessor"@[1], 0)) by {
        reveal_with_fuel(has_pair_from, 18);
    }
    lemma_pair_blocks("SamImageProcessor"@, "LTX2VideoHDRProcessor"@, 0);
    reveal_strlit("CLIPImageProcessor");
    assert(!has_pair_from("SamImageProcessor"@, "CLIPImageProcessor"@[0], "CLIPImageProcessor"@[1], 0)) by {
        reveal_with_fuel(has_pair_from, 18);
    }
    lemma_pair_blocks("SamImageProcessor"@, "CLIPImageProcessor"@, 0);
    reveal_strlit("VaeImageProcessorLDM3D");
    assert(!has_pair_from("SamImageProcessor"@, "VaeImageProcessorLDM3D"@[0], "VaeImageProcessorLDM3D"@[1], 0)) by {
        reveal_with_fuel(has_pair_from, 18);
    }
    lemma_pair_blocks("SamImageProcessor"@, "VaeImageProcessorLDM3D"@, 0);
    reveal_strlit("VaeImageProcessorLdm3d");
    assert(!has_pair_from("SamImageProcessor"@, "VaeImageProcessorLdm3d"@[0], "VaeImageProcessorLdm3d"@[1], 0)) by {
        reveal_with_fuel(has_pair_from, 18);
    }
    lemma_pair_blocks("SamImageProcessor"@, "VaeImageProcessorLdm3d"@, 0);
    reveal_strlit("VaeImageProcessor");
    assert(!has_pair_from("SamImageProcessor"@, "VaeImageProcessor"@[0], "VaeImageProcessor"@[1], 0)) by {
        reveal_with_fuel(has_pair_from, 18);
    }
    lemma_pair_blocks("SamImageProcessor"@, "VaeImageProcessor"@, 0);
    reveal_strlit("VideoMAE");
    assert(!has_pair_from("SamImageProcessor"@, "VideoMAE"@[0], "VideoMAE"@[1], 0)) by {
        reveal_with_fuel(has_pair_from, 18);
    }
    lemma_pair_blocks("SamImageProcessor"@, "VideoMAE"@, 0);
    reveal_strlit("Vivit");
    assert(!has_pair_from("SamImageProcessor"@, "Vivit"@[0], "Vivit"@[1], 0)) by {
        reveal_with_fuel(has_pair_from, 18);
    }
    lemma_pair_blocks("SamImageProcessor"@, "Vivit"@, 0);
    reveal_strlit("ViTImageProcessor");
    assert(!has_pair_from("SamImageProcessor"@, "ViTImageProcessor"@[0], "ViTImageProcessor"@[1], 0)) by {
        reveal_with_fuel(has_pair_from, 18);
    }
    lemma_pair_blocks("SamImageProcessor"@, "ViTImageProcessor"@, 0);
    reveal_strlit("LlavaNext");
    assert(!has_pair_from("SamImageProcessor"@, "LlavaNext"@[0], "LlavaNext"@[1], 0)) by {
        reveal_with_fuel(has_pair_from, 18);
    }
    lemma_pair_blocks("SamImageProcessor"@, "LlavaNext"@, 0);
    reveal_strlit("LLaVA-NeXT");
    assert(!has_pair_from("SamImageProcessor"@, "LLaVA-NeXT"@[0], "LLaVA-NeXT"@[1], 0)) by {
        reveal_with_fuel(has_pair_from, 18);
    }
    lemma_pair_blocks("SamImageProcessor"@, "LLaVA-NeXT"@, 0);
    reveal_strlit("Pixtral");
    assert(!has_pair_from("SamImageProcessor"@, "Pixtral"@[0], "Pixtral"@[1], 0)) by {
        reveal_with_fuel(has_pair_from, 18);
    }
    lemma_pair_blocks("SamImageProcessor"@, "Pixtral"@, 0);
    reveal_strlit("Idefics3");
    assert(!has_pair_from("SamImageProcessor"@, "Idefics3"@[0], "Idefics3"@[1], 0)) by {
        reveal_with_fuel(has_pair_from, 18);
    }
    lemma_pair_blocks("SamImageProcessor"@, "Idefics3"@, 0);
    reveal_strlit("Gemma3");
    assert(!has_pair_from("SamImageProcessor"@, "Gemma3"@[0], "Gemma3"@[1], 0)) by {
        reveal_with_fuel(has_pair_from, 18);
    }
    lemma_pair_blocks("SamImageProcessor"@, "Gemma3"@, 0);
    reveal_strlit("Mllama");
    assert(!has_pair_from("SamImageProcessor"@, "Mllama"@[0], "Mllama"@[1], 0)) by {
        reveal_with_fuel(has_pair_from, 18);
    }
    lemma_pair_blocks("SamImageProcessor"@, "Mllama"@, 0);
    reveal_strlit("Qwen");
    assert(!has_pair_from("SamImageProcessor"@, "Qwen"@[0], "Qwen"@[1], 0)) by {
        reveal_with_fuel(has_pair_from, 18);
    }
    lemma_pair_blocks("SamImageProcessor"@, "Qwen"@, 0);
    reveal_strlit("DetrImageProcessor");
    assert(!has_pair_from("SamImageProcessor"@, "DetrImageProcessor"@[0], "DetrImageProcessor"@[1], 0)) by {
        reveal_with_fuel(has_pair_from, 18);
    }
    lemma_pair_blocks("SamImageProcessor"@, "DetrImageProcessor"@, 0);
    reveal_strlit("SamImageProcessor");
    assert("SamImageProcessor"@.subrange(0, 17) =~= "SamImageProcessor"@);
    assert(occurs_at("SamImageProcessor"@, "SamImageProcessor"@, 0));
}

/// The class name `DonutImageProcessor` routes to its family.
proof fn lemma_document_ocr_name_routes()
    ensures
        spec_route_processor_type("DonutImageProcessor"@) == Some(ProcessorFamily::DocumentOcr),
{
    reveal_strlit("DonutImageProcessor");
    reveal_strlit("BlipImageProcessor");
    assert(!has_pair_from("DonutImageProcessor"@, "BlipImageProcessor"@[0], "BlipImageProcessor"@[1], 0)) by {
        reveal_with_fuel(has_pair_from, 20);
    }
    lemma_pair_blocks("DonutImageProcessor"@, "BlipImageProcessor"@, 0);
    reveal_strlit("Flux2ImageProcessor");
    assert(!has_pair_from("DonutImageProcessor"@, "Flux2ImageProcessor"@[0], "Flux2ImageProcessor"@[1], 0)) by {
        reveal_with_fuel(has_pair_from, 20);
    }
    lemma_pair_blocks("DonutImageProcessor"@, "Flux2ImageProcessor"@, 0);
    reveal_strlit("VisualClozeProcessor");
    assert(!has_pair_from("DonutImageProcessor"@, "VisualClozeProcessor"@[0], "VisualClozeProcessor"@[1], 0)) by {
        reveal_with_fuel(has_pair_from, 20);
    }
    lemma_pair_blocks("DonutImageProcessor"@, "VisualClozeProcessor"@, 0);
    reveal_strlit("HunyuanVideo15ImageProcessor");
    assert(!has_pair_from("DonutImageProcessor"@, "HunyuanVideo15ImageProcessor"@[0], "HunyuanVideo15ImageProcessor"@[1], 0)) by {
        reveal_with_fuel(has_pair_from, 20);
    }
    lemma_pair_blocks("DonutImageProcessor"@, "HunyuanVideo15ImageProcessor"@, 0);
    reveal_strlit("MarigoldImageProcessor");
    assert(!has_pair_from("DonutImageProcessor"@, "MarigoldImageProcessor"@[0], "MarigoldImageProcessor"@[1], 0)) by {
        reveal_with_fuel(has_pair_from, 20);
    }
    lemma_pair_blocks("DonutImageProcessor"@, "MarigoldImageProcessor"@, 0);
    reveal_strlit("JoyImageEditImageProcessor");
    assert(!has_pair_from("DonutImageProcessor"@, "JoyImageEditImageProcessor"@[0], "JoyImageEditImageProcessor"@[1], 0)) by {
        reveal_with_fuel(has_pair_from, 20);
    }
    lemma_pair_blocks("DonutImageProcessor"@, "JoyImageEditImageProcessor"@, 0);
    reveal_strlit("WanAnimateImageProcessor");
    assert(!has_pair_from("DonutImageProcessor"@, "WanAnimateImageProcessor"@[0], "WanAnimateImageProcessor"@[1], 0)) by {
        reveal_with_fuel(has_pair_from, 20);
    }
    lemma_pair_blocks("DonutImageProcessor"@, "WanAnimateImageProcessor"@, 0);
    reveal_strlit("LTX2VideoHDRProcessor");
    assert(!has_pair_from("DonutImageProcessor"@, "LTX2VideoHDRProcessor"@[0], "LTX2VideoHDRProcessor"@[1], 0)) by {
        reveal_with_fuel(has_pair_from, 20);
    }
    lemma_pair_blocks("DonutImageProcessor"@, "LTX2VideoHDRProcessor"@, 0);
    reveal_strlit("CLIPImageProcessor");
    assert(!has_pair_from("DonutImageProcessor"@, "CLIPImageProcessor"@[0], "CLIPImageProcessor"@[1], 0)) by {
        reveal_with_fuel(has_pair_from, 20);
    }
    lemma_pair_blocks("DonutImageProcessor"@, "CLIPImageProcessor"@, 0);
    reveal_strlit("VaeImageProcessorLDM3D");
    assert(!has_pair_from("DonutImageProcessor"@, "VaeImageProcessorLDM3D"@[0], "VaeImageProcessorLDM3D"@[1], 0)) by {
        reveal_with_fuel(has_pair_from, 20);
    }
    lemma_pair_blocks("DonutImageProcessor"@, "VaeImageProcessorLDM3D"@, 0);
    reveal_strlit("VaeImageProcessorLdm3d");
    assert(!has_pair_from("DonutImageProcessor"@, "VaeImageProcessorLdm3d"@[0], "VaeImageProcessorLdm3d"@[1], 0)) by {
        reveal_with_fuel(has_pair_from, 20);
    }
    lemma_pair_blocks("DonutImageProcessor"@, "VaeImageProcessorLdm3d"@, 0);
    reveal_strlit("VaeImageProcessor");
    assert(!has_pair_from("DonutImageProcessor"@, "VaeImageProcessor"@[0], "VaeImageProcessor"@[1], 0)) by {
        reveal_with_fuel(has_pair_from, 20);
    }
    lemma_pair_blocks("DonutImageProcessor"@, "VaeImageProcessor"@, 0);
    reveal_strlit("VideoMAE");
    assert(!has_pair_from("DonutImageProcessor"@, "VideoMAE"@[0], "VideoMAE"@[1], 0)) by {
        reveal_with_fuel(has_pair_from, 20);
    }
    lemma_pair_blocks("DonutImageProcessor"@, "VideoMAE"@, 0);
    reveal_strlit("Vivit");
    assert(!has_pair_from("DonutImageProcessor"@, "Vivit"@[0], "Vivit"@[1], 0)) by {
        reveal_with_fuel(has_pair_from, 20);
    }
    lemma_pair_blocks("DonutImageProcessor"@, "Vivit"@, 0);
    reveal_strlit("ViTImageProcessor");
    assert(!has_pair_from("DonutImageProcessor"@, "ViTImageProcessor"@[0], "ViTImageProcessor"@[1], 0)) by {
        reveal_with_fuel(has_pair_from, 20);
    }
    lemma_pair_blocks("DonutImageProcessor"@, "ViTImageProcessor"@, 0);
    reveal_strlit("LlavaNext");
    assert(!has_pair_from("DonutImageProcessor"@, "LlavaNext"@[0], "LlavaNext"@[1], 0)) by {
        reveal_with_fuel(has_pair_from, 20);
    }
    lemma_pair_blocks("DonutImageProcessor"@, "LlavaNext"@, 0);
    reveal_strlit("LLaVA-NeXT");
    assert(!has_pair_from("DonutImageProcessor"@, "LLaVA-NeXT"@[0], "LLaVA-NeXT"@[1], 0)) by {
        reveal_with_fuel(has_pair_from, 20);
    }
    lemma_pair_blocks("DonutImageProcessor"@, "LLaVA-NeXT"@, 0);
    reveal_strlit("Pixtral");
    assert(!has_pair_from("DonutImageProcessor"@, "Pixtral"@[0], "Pixtral"@[1], 0)) by {
        reveal_with_fuel(has_pair_from, 20);
    }
    lemma_pair_blocks("DonutImageProcessor"@, "Pixtral"@, 0);
    reveal_strlit("Idefics3");
    assert(!has_pair_from("DonutImageProcessor"@, "Idefics3"@[0], "Idefics3"@[1], 0)) by {
        reveal_with_fuel(has_pair_from, 20);
    }
    lemma_pair_blocks("DonutImageProcessor"@, "Idefics3"@, 0);
    reveal_strlit("Gemma3");
    assert(!has_pair_from("DonutImageProcessor"@, "Gemma3"@[0], "Gemma3"@[1], 0)) by {
        reveal_with_fuel(has_pair_from, 20);
    }
    lemma_pair_blocks("DonutImageProcessor"@, "Gemma3"@, 0);
    reveal_strlit("Mllama");
    assert(!has_pair_from("DonutImageProcessor"@, "Mllama"@[0], "Mllama"@[1], 0)) by {
        reveal_with_fuel(has_pair_from, 20);
    }
    lemma_pair_blocks("DonutImageProcessor"@, "Mllama"@, 0);
    reveal_strlit("Qwen");
    assert(!has_pair_from("DonutImageProcessor"@, "Qwen"@[0], "Qwen"@[1], 0)) by {
        reveal_with_fuel(has_pair_from, 20);
    }
    lemma_pair_blocks("DonutImageProcessor"@, "Qwen"@, 0);
    reveal_strlit("DetrImageProcessor");
    assert(!has_pair_from("DonutImageProcessor"@, "DetrImageProcessor"@[0], "DetrImageProcessor"@[1], 0)) by {
        reveal_with_fuel(has_pair_from, 20);
    }
    lemma_pair_blocks("DonutImageProcessor"@, "DetrImageProcessor"@, 0);
    reveal_strlit("SamImageProcessor");
    assert(!has_pair_from("DonutImageProcessor"@, "SamImageProcessor"@[0], "SamImageProcessor"@[1], 0)) by {
        reveal_with_fuel(has_pair_from, 20);
    }
    lemma_pair_blocks("DonutImageProcessor"@, "SamImageProcessor"@, 0);
    reveal_strlit("Document");
    assert(!has_pair_from("DonutImageProcessor"@, "Document"@[2], "Document"@[3], 0)) by {
        reveal_with_fuel(has_pair_from, 20);
    }
    lemma_pair_blocks("DonutImageProcessor"@, "Document"@, 2);
    reveal_strlit("OCR");
    assert(!has_pair_from("DonutImageProcessor"@, "OCR"@[0], "OCR"@[1], 0)) by {
        reveal_with_fuel(has_pair_from, 20);
    }
    lemma_pair_blocks("DonutImageProcessor"@, "OCR"@, 0);
    reveal_strlit("Donut");
    assert("DonutImageProcessor"@.subrange(0, 5) =~= "Donut"@);
    assert(occurs_at("DonutImageProcessor"@, "Donut"@, 0));
}


/// The Transformers or Diffusers class name that stands for each processor family.
pub open spec fn family_class_name(f: ProcessorFamily) -> &'static str {
    match f {
        ProcessorFamily::Blip => "BlipImageProcessor",
        ProcessorFamily::Flux2 => "Flux2ImageProcessor",
        ProcessorFamily::VisualCloze => "VisualClozeProcessor",
        ProcessorFamily::HunyuanVideo15 => "HunyuanVideo15ImageProcessor",
        ProcessorFamily::Marigold => "MarigoldImageProcessor",
        ProcessorFamily::JoyImageEdit => "JoyImageEditImageProcessor",
        ProcessorFamily::WanAnimate => "WanAnimateImageProcessor",
        ProcessorFamily::Ltx2VideoHdr => "LTX2VideoHDRProcessor",
        ProcessorFamily::Clip => "CLIPImageProcessor",
        ProcessorFamily::VaeLdm3d => "VaeImageProcessorLDM3D",
        ProcessorFamily::Vae => "VaeImageProcessor",
        ProcessorFamily::VideoMae => "VideoMAEImageProcessor",
        ProcessorFamily::Vivit => "VivitImageProcessor",
        ProcessorFamily::Vit => "ViTImageProcessor",
        ProcessorFamily::LlavaNext => "LlavaNextImageProcessor",
        ProcessorFamily::Pixtral => "PixtralImageProcessor",
        ProcessorFamily::Idefics3 => "Idefics3ImageProcessor",
        ProcessorFamily::Gemma3 => "Gemma3ImageProcessor",
        ProcessorFamily::Mllama => "MllamaImageProcessor",
        ProcessorFamily::QwenVl => "Qwen2VLImageProcessor",
        ProcessorFamily::Detr => "DetrImageProcessor",
        ProcessorFamily::Sam => "SamImageProcessor",
        ProcessorFamily::DocumentOcr => "DonutImageProcessor",
    }
}

/// Every family's own class name routes to that family: a `preprocessor_config.json`
/// whose processor type is, for example, `ViTImageProcessor` builds the ViT family
/// configuration, and `CLIPImageProcessor` the CLIP one.
pub proof fn family_class_names_route_to_their_family(f: ProcessorFamily)
    ensures
        spec_route_processor_type(family_class_name(f)@) == Some(f),
{
    match f {
        ProcessorFamily::Blip => lemma_blip_name_routes(),
        ProcessorFamily::Flux2 => lemma_flux2_name_routes(),
        ProcessorFamily::VisualCloze => lemma_visual_cloze_name_routes(),
        ProcessorFamily::HunyuanVideo15 => lemma_hunyuan_video15_name_routes(),
        ProcessorFamily::Marigold => lemma_marigold_name_routes(),
        ProcessorFamily::JoyImageEdit => lemma_joy_image_edit_name_routes(),
        ProcessorFamily::WanAnimate => lemma_wan_animate_name_routes(),
        ProcessorFamily::Ltx2VideoHdr => lemma_ltx2_video_hdr_name_routes(),
        ProcessorFamily::Clip => lemma_clip_name_routes(),
        ProcessorFamily::VaeLdm3d => lemma_vae_ldm3d_name_routes(),
        ProcessorFamily::Vae => lemma_vae_name_routes(),
        ProcessorFamily::VideoMae => lemma_video_mae_name_routes(),
        ProcessorFamily::Vivit => lemma_vivit_name_routes(),
        ProcessorFamily::Vit => lemma_vit_name_routes(),
        ProcessorFamily::LlavaNext => lemma_llava_next_name_routes(),
        ProcessorFamily::Pixtral => lemma_pixtral_name_routes(),
        ProcessorFamily::Idefics3 => lemma_idefics3_name_routes(),
        ProcessorFamily::Gemma3 => lemma_gemma3_name_routes(),
        ProcessorFamily::Mllama => lemma_mllama_name_routes(),
        ProcessorFamily::QwenVl => lemma_qwen_vl_name_routes(),
        ProcessorFamily::Detr => lemma_detr_name_routes(),
        ProcessorFamily::Sam => lemma_sam_name_routes(),
        ProcessorFamily::DocumentOcr => lemma_document_ocr_name_routes(),
    }
}

} // verus!
