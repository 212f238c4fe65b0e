//! Per-class pixel settings of the multimodal presets: working edge, resize
//! filter, rescale factor, normalization statistics and channel order.

use vstd::prelude::*;

use crate::indexing::{lemma_quotient_below, lemma_split};
use crate::families::{spec_clip_image_mean, spec_clip_image_std, spec_imagenet_image_mean, spec_imagenet_image_std};
use crate::generic::{config_is, ImageProcessorConfig};
use crate::layout::Layout;
use crate::multimodal_presets::{MultimodalResizeBackend, COMPACT_EDGE};
use crate::settings::{BatchExecution, ImageDecodeBackend, PixelFormat, ResizeFilter, ResizeMode, ResizeParity};
use crate::text::{listed, str_equal, str_listed};

verus! {

/// `1 / 255` as an `f32` bit pattern.
pub const PIXEL_RESCALE_FACTOR: u32 = 0x3B80_8081u32;

/// `0.0078` as an `f32` bit pattern: the Chameleon rescale factor.
pub const CHAMELEON_RESCALE_FACTOR: u32 = 0x3BFF_9724u32;

/// `0.5` as an `f32` bit pattern.
pub const HALF: u32 = 0x3F00_0000u32;

/// `1.0` as an `f32` bit pattern.
pub const ONE: u32 = 0x3F80_0000u32;

/// `0.7931` as an `f32` bit pattern: the PP-FormulaNet mean.
pub const PP_FORMULA_MEAN: u32 = 0x3F4B_089Au32;

/// `0.1738` as an `f32` bit pattern: the PP-FormulaNet standard deviation.
pub const PP_FORMULA_STD: u32 = 0x3E31_F8A1u32;

/// Pixel settings of one multimodal class; the floating-point values are
/// `f32` bit patterns.
#[derive(Clone, Copy, Debug, PartialEq, Eq)]
pub struct PixelSpec {
    /// Working square edge.
    pub edge: usize,
    /// Resize filter.
    pub filter: ResizeFilter,
    /// Rescale factor.
    pub rescale_factor: u32,
    /// Whether pixels are rescaled.
    pub do_rescale: bool,
    /// Whether pixels are normalized.
    pub do_normalize: bool,
    /// Per-channel means.
    pub mean: [u32; 3],
    /// Per-channel standard deviations.
    pub std: [u32; 3],
    /// Whether the RGB channel order is reversed.
    pub reverse_channels: bool,
}

/// Classes resized with the Lanczos filter.
pub open spec fn spec_lanczos_classes() -> Seq<&'static str> {
    seq!["ChameleonImageProcessor", "SmolVLMImageProcessor"]
}

/// Classes resized with the bilinear filter.
pub open spec fn spec_bilinear_classes() -> Seq<&'static str> {
    seq![
        "FuyuImageProcessor",
        "Idefics2ImageProcessor",
        "LayoutLMv2ImageProcessor",
        "LayoutLMv3ImageProcessor",
        "Lfm2VlImageProcessor",
        "NougatImageProcessor",
        "PPFormulaNetImageProcessor",
        "PPOCRV5ServerRecImageProcessor",
        "PPOCRV6SmallRecImageProcessor",
        "Phi4MultimodalImageProcessor",
        "SLANeXtImageProcessor",
        "Siglip2ImageProcessor",
        "TextNetImageProcessor",
        "TvpImageProcessor",
        "UVDocImageProcessor",
    ]
}

/// Classes normalized with the OpenAI CLIP statistics.
pub open spec fn spec_clip_stat_classes() -> Seq<&'static str> {
    seq![
        "BlipImageProcessor",
        "BridgeTowerImageProcessor",
        "Cohere2VisionImageProcessor",
        "DeepseekVLHybridImageProcessor",
        "DeepseekVLImageProcessor",
        "Emu3ImageProcessor",
        "Ernie4_5_VLMoeImageProcessor",
        "Glm46VImageProcessor",
        "Glm4vImageProcessor",
        "GlmImageImageProcessor",
        "GlmgaImageProcessor",
        "GotOcr2ImageProcessor",
        "HunYuanVLImageProcessor",
        "IdeficsImageProcessor",
        "JanusImageProcessor",
        "LlavaImageProcessor",
        "LlavaOnevisionImageProcessor",
        "MiniMaxM3VLImageProcessor",
        "Ovis2ImageProcessor",
        "PPChart2TableImageProcessor",
        "PaddleOCRVLImageProcessor",
        "VideoLlavaImageProcessor",
    ]
}

/// Classes normalized with the ImageNet statistics.
pub open spec fn spec_imagenet_stat_classes() -> Seq<&'static str> {
    seq!["NougatImageProcessor", "SLANeXtImageProcessor", "TextNetImageProcessor"]
}

/// The Gemma 4 classes.
pub open spec fn spec_gemma4_classes() -> Seq<&'static str> {
    seq!["Gemma4ImageProcessor", "Gemma4UnifiedImageProcessor"]
}

/// Classes whose pixels are not normalized.
pub open spec fn spec_unnormalized_classes() -> Seq<&'static str> {
    seq![
        "LayoutLMv2ImageProcessor",
        "Gemma4ImageProcessor",
        "Gemma4UnifiedImageProcessor",
        "UVDocImageProcessor",
    ]
}

/// Classes whose RGB channel order is reversed.
pub open spec fn spec_channel_reversed_classes() -> Seq<&'static str> {
    seq![
        "LayoutLMv2ImageProcessor",
        "PPOCRV6SmallRecImageProcessor",
        "TvpImageProcessor",
        "UVDocImageProcessor",
    ]
}

/// Working square edge of a class.
pub open spec fn spec_pixel_edge(name: Seq<char>) -> usize {
    if name == "AriaImageProcessor"@ {
        490
    } else if listed(spec_gemma4_classes(), name) {
        16
    } else if name == "GlmImageImageProcessor"@ {
        4
    } else if name == "MiniMaxM3VLImageProcessor"@ {
        56
    } else if name == "Phi4MultimodalImageProcessor"@ {
        12
    } else {
        COMPACT_EDGE
    }
}

/// Resize filter of a class.
pub open spec fn spec_pixel_filter(name: Seq<char>) -> ResizeFilter {
    if listed(spec_lanczos_classes(), name) {
        ResizeFilter::Lanczos
    } else if listed(spec_bilinear_classes(), name) {
        ResizeFilter::Bilinear
    } else {
        ResizeFilter::Bicubic
    }
}

/// Per-channel means of a class.
pub open spec fn spec_pixel_mean(name: Seq<char>) -> Seq<u32> {
    if listed(spec_clip_stat_classes(), name) {
        spec_clip_image_mean()
    } else if listed(spec_imagenet_stat_classes(), name) {
        spec_imagenet_image_mean()
    } else if name == "PPFormulaNetImageProcessor"@ {
        seq![PP_FORMULA_MEAN, PP_FORMULA_MEAN, PP_FORMULA_MEAN]
    } else if name == "ChameleonImageProcessor"@ {
        seq![ONE, ONE, ONE]
    } else if listed(spec_gemma4_classes(), name) {
        seq![0u32, 0u32, 0u32]
    } else {
        seq![HALF, HALF, HALF]
    }
}

/// Per-channel standard deviations of a class.
pub open spec fn spec_pixel_std(name: Seq<char>) -> Seq<u32> {
    if listed(spec_clip_stat_classes(), name) {
        spec_clip_image_std()
    } else if listed(spec_imagenet_stat_classes(), name) {
        spec_imagenet_image_std()
    } else if name == "PPFormulaNetImageProcessor"@ {
        seq![PP_FORMULA_STD, PP_FORMULA_STD, PP_FORMULA_STD]
    } else if name == "ChameleonImageProcessor"@ || listed(spec_gemma4_classes(), name) {
        seq![ONE, ONE, ONE]
    } else {
        seq![HALF, HALF, HALF]
    }
}

/// Rescale factor of a class.
pub open spec fn spec_pixel_rescale_factor(name: Seq<char>) -> u32 {
    if name == "ChameleonImageProcessor"@ {
        CHAMELEON_RESCALE_FACTOR
    } else {
        PIXEL_RESCALE_FACTOR
    }
}

fn lanczos_classes() -> (r: &'static [&'static str])
    ensures
        r@ == spec_lanczos_classes(),
{
    let r: &'static [&'static str] = &["ChameleonImageProcessor", "SmolVLMImageProcessor"];
    assert(r@ =~= spec_lanczos_classes());
    r
}

fn bilinear_classes() -> (r: &'static [&'static str])
    ensures
        r@ == spec_bilinear_classes(),
{
    let r: &'static [&'static str] = &[
        "FuyuImageProcessor",
        "Idefics2ImageProcessor",
        "LayoutLMv2ImageProcessor",
        "LayoutLMv3ImageProcessor",
        "Lfm2VlImageProcessor",
        "NougatImageProcessor",
        "PPFormulaNetImageProcessor",
        "PPOCRV5ServerRecImageProcessor",
        "PPOCRV6SmallRecImageProcessor",
        "Phi4MultimodalImageProcessor",
        "SLANeXtImageProcessor",
        "Siglip2ImageProcessor",
        "TextNetImageProcessor",
        "TvpImageProcessor",
        "UVDocImageProcessor",
    ];
    assert(r@ =~= spec_bilinear_classes());
    r
}

fn clip_stat_classes() -> (r: &'static [&'static str])
    ensures
        r@ == spec_clip_stat_classes(),
{
    let r: &'static [&'static str] = &[
        "BlipImageProcessor",
        "BridgeTowerImageProcessor",
        "Cohere2VisionImageProcessor",
        "DeepseekVLHybridImageProcessor",
        "DeepseekVLImageProcessor",
        "Emu3ImageProcessor",
        "Ernie4_5_VLMoeImageProcessor",
        "Glm46VImageProcessor",
        "Glm4vImageProcessor",
        "GlmImageImageProcessor",
        "GlmgaImageProcessor",
        "GotOcr2ImageProcessor",
        "HunYuanVLImageProcessor",
        "IdeficsImageProcessor",
        "JanusImageProcessor",
        "LlavaImageProcessor",
        "LlavaOnevisionImageProcessor",
        "MiniMaxM3VLImageProcessor",
        "Ovis2ImageProcessor",
        "PPChart2TableImageProcessor",
        "PaddleOCRVLImageProcessor",
        "VideoLlavaImageProcessor",
    ];
    assert(r@ =~= spec_clip_stat_classes());
    r
}

fn imagenet_stat_classes() -> (r: &'static [&'static str])
    ensures
        r@ == spec_imagenet_stat_classes(),
{
    let r: &'static [&'static str] = &["NougatImageProcessor", "SLANeXtImageProcessor", "TextNetImageProcessor"];
    assert(r@ =~= spec_imagenet_stat_classes());
    r
}

fn gemma4_classes() -> (r: &'static [&'static str])
    ensures
        r@ == spec_gemma4_classes(),
{
    let r: &'static [&'static str] = &["Gemma4ImageProcessor", "Gemma4UnifiedImageProcessor"];
    assert(r@ =~= spec_gemma4_classes());
    r
}

fn unnormalized_classes() -> (r: &'static [&'static str])
    ensures
        r@ == spec_unnormalized_classes(),
{
    let r: &'static [&'static str] = &[
        "LayoutLMv2ImageProcessor",
        "Gemma4ImageProcessor",
        "Gemma4UnifiedImageProcessor",
        "UVDocImageProcessor",
    ];
    assert(r@ =~= spec_unnormalized_classes());
    r
}

fn channel_reversed_classes() -> (r: &'static [&'static str])
    ensures
        r@ == spec_channel_reversed_classes(),
{
    let r: &'static [&'static str] = &[
        "LayoutLMv2ImageProcessor",
        "PPOCRV6SmallRecImageProcessor",
        "TvpImageProcessor",
        "UVDocImageProcessor",
    ];
    assert(r@ =~= spec_channel_reversed_classes());
    r
}

fn pixel_edge(class_name: &str) -> (r: usize)
    ensures
        r == spec_pixel_edge(class_name@),
{
    if str_equal(class_name, "AriaImageProcessor") {
        490
    } else if str_listed(gemma4_classes(), class_name) {
        16
    } else if str_equal(class_name, "GlmImageImageProcessor") {
        4
    } else if str_equal(class_name, "MiniMaxM3VLImageProcessor") {
        56
    } else if str_equal(class_name, "Phi4MultimodalImageProcessor") {
        12
    } else {
        COMPACT_EDGE
    }
}

fn pixel_filter(class_name: &str) -> (r: ResizeFilter)
    ensures
        r == spec_pixel_filter(class_name@),
{
    if str_listed(lanczos_classes(), class_name) {
        ResizeFilter::Lanczos
    } else if str_listed(bilinear_classes(), class_name) {
        ResizeFilter::Bilinear
    } else {
        ResizeFilter::Bicubic
    }
}

fn pixel_stats(class_name: &str) -> (r: ([u32; 3], [u32; 3]))
    ensures
        r.0@ == spec_pixel_mean(class_name@),
        r.1@ == spec_pixel_std(class_name@),
{
    let (mean, std): ([u32; 3], [u32; 3]) = if str_listed(clip_stat_classes(), class_name) {
        ([0x3EF6_813Au32, 0x3EEA_685Eu32, 0x3ED1_00FFu32], [0x3E89_89D0u32, 0x3E85_C974u32, 0x3E8D_32A8u32])
    } else if str_listed(imagenet_stat_classes(), class_name) {
        ([0x3EF8_51ECu32, 0x3EE9_78D5u32, 0x3ECF_DF3Bu32], [0x3E6A_7EFAu32, 0x3E65_6042u32, 0x3E66_6666u32])
    } else if str_equal(class_name, "PPFormulaNetImageProcessor") {
        ([PP_FORMULA_MEAN, PP_FORMULA_MEAN, PP_FORMULA_MEAN], [PP_FORMULA_STD, PP_FORMULA_STD, PP_FORMULA_STD])
    } else if str_equal(class_name, "ChameleonImageProcessor") {
        ([ONE, ONE, ONE], [ONE, ONE, ONE])
    } else if str_listed(gemma4_classes(), class_name) {
        ([0u32, 0u32, 0u32], [ONE, ONE, ONE])
    } else {
        ([HALF, HALF, HALF], [HALF, HALF, HALF])
    };
    assert(mean@ =~= spec_pixel_mean(class_name@));
    assert(std@ =~= spec_pixel_std(class_name@));
    (mean, std)
}

/// Pixel settings of `class_name`: its working edge, resize filter, rescale
/// factor, whether it rescales and normalizes, its normalization statistics
/// and whether its channel order is reversed; a class outside every special
/// case gets the compact defaults.
pub fn pixel_spec(class_name: &str) -> (r: PixelSpec)
    ensures
        r.edge == spec_pixel_edge(class_name@),
        r.filter == spec_pixel_filter(class_name@),
        r.rescale_factor == spec_pixel_rescale_factor(class_name@),
        r.do_rescale == (class_name@ != "LayoutLMv2ImageProcessor"@),
        r.do_normalize == !listed(spec_unnormalized_classes(), class_name@),
        r.mean@ == spec_pixel_mean(class_name@),
        r.std@ == spec_pixel_std(class_name@),
        r.reverse_channels == listed(spec_channel_reversed_classes(), class_name@),
{
    let (mean, std) = pixel_stats(class_name);
    PixelSpec {
        edge: pixel_edge(class_name),
        filter: pixel_filter(class_name),
        rescale_factor: if str_equal(class_name, "ChameleonImageProcessor") {
            CHAMELEON_RESCALE_FACTOR
        } else {
            PIXEL_RESCALE_FACTOR
        },
        do_rescale: !str_equal(class_name, "LayoutLMv2ImageProcessor"),
        do_normalize: !str_listed(unnormalized_classes(), class_name),
        mean,
        std,
        reverse_channels: str_listed(channel_reversed_classes(), class_name),
    }
}

/// Position, in a planar RGB image of `height` by `width` (channel, then row,
/// then column), of value `o` of the channel-first patch sequence: patches in
/// row-major grid order, each by channel, row and column.
pub open spec fn chw_patch_source(o: int, patch: int, grid_w: int, height: int, width: int) -> int {
    let depth = patch * patch * 3;
    let k = o / depth;
    let rem = o % depth;
    let channel = rem / (patch * patch);
    let within = rem % (patch * patch);
    let y = within / patch;
    let x = within % patch;
    let grid_y = k / grid_w;
    let grid_x = k % grid_w;
    channel * (height * width) + (grid_y * patch + y) * width + grid_x * patch + x
}

/// Position, in a planar RGB image of `height` by `width`, of value `o` of the
/// channel-last patch sequence: patches in row-major grid order, each by row,
/// column and channel.
pub open spec fn hwc_patch_source(o: int, patch: int, grid_w: int, height: int, width: int) -> int {
    let depth = patch * patch * 3;
    let k = o / depth;
    let rem = o % depth;
    let y = rem / (patch * 3);
    let within = rem % (patch * 3);
    let x = within / 3;
    let channel = within % 3;
    let grid_y = k / grid_w;
    let grid_x = k % grid_w;
    channel * (height * width) + (grid_y * patch + y) * width + grid_x * patch + x
}

/// A channel, row and column inside a planar RGB image give an index inside it.
proof fn lemma_planar_index(channel: int, line: int, column: int, height: int, width: int)
    requires
        0 <= channel < 3,
        0 <= line < height,
        0 <= column < width,
    ensures
        0 <= line * width <= line * width + column < height * width,
        0 <= channel * (height * width) <= channel * (height * width) + line * width + column < 3 * height * width,
        height * width <= 3 * height * width,
{
    assert(0 <= line * width && line * width + column < height * width) by (nonlinear_arith)
        requires
            0 <= line < height,
            0 <= column < width,
    ;
    assert(channel * (height * width) + height * width <= 3 * height * width && 0 <= channel * (height
        * width)) by (nonlinear_arith)
        requires
            0 <= channel < 3,
            height * width >= 0,
    ;
}

/// Grid position bounds of patch `k` of a `grid_h` by `grid_w` grid inside an
/// image of `height` by `width`: its top row plus any row of the patch is a
/// row of the image, and likewise for columns.
proof fn lemma_grid_cell(k: int, y: int, x: int, patch: int, grid_h: int, grid_w: int, height: int, width: int)
    requires
        0 <= k < grid_h * grid_w,
        grid_w > 0,
        0 <= y < patch,
        0 <= x < patch,
        grid_h * patch <= height,
        grid_w * patch <= width,
    ensures
        0 <= (k / grid_w) * patch + y < height,
        0 <= (k % grid_w) * patch + x < width,
{
    lemma_split(k, grid_w);
    lemma_quotient_below(k, grid_w, grid_h);
    let grid_y = k / grid_w;
    let grid_x = k % grid_w;
    assert(0 <= grid_y * patch + y < height) by (nonlinear_arith)
        requires
            0 <= grid_y < grid_h,
            0 <= y < patch,
            grid_h * patch <= height,
    ;
    assert(0 <= grid_x * patch + x < width) by (nonlinear_arith)
        requires
            0 <= grid_x < grid_w,
            0 <= x < patch,
            grid_w * patch <= width,
    ;
}

/// A grid of whole patches of an image holds no more values than the image.
proof fn lemma_grid_size(patch: int, height: int, width: int)
    requires
        patch > 0,
        height >= 0,
        width >= 0,
    ensures
        (height / patch) * patch <= height,
        (width / patch) * patch <= width,
        (height / patch) * (width / patch) * (patch * patch * 3) <= 3 * height * width,
        patch * patch * 3 > 0,
{
    lemma_split(height, patch);
    lemma_split(width, patch);
    let grid_h = height / patch;
    let grid_w = width / patch;
    assert(grid_h * patch <= height && grid_w * patch <= width) by (nonlinear_arith)
        requires
            height == patch * grid_h + height % patch,
            width == patch * grid_w + width % patch,
            height % patch >= 0,
            width % patch >= 0,
    ;
    assert(grid_h * grid_w * (patch * patch * 3) <= 3 * height * width && patch * patch * 3 > 0) by (nonlinear_arith)
        requires
            patch > 0,
            grid_h >= 0,
            grid_w >= 0,
            grid_h * patch <= height,
            grid_w * patch <= width,
    ;
}

/// Source index bounds of value `o` of the channel-first patch sequence.
proof fn lemma_chw_source(o: int, patch: int, grid_h: int, grid_w: int, height: int, width: int)
    requires
        patch > 0,
        grid_h * patch <= height,
        grid_w * patch <= width,
        grid_h >= 0,
        grid_w >= 0,
        0 <= o < grid_h * grid_w * (patch * patch * 3),
    ensures
        grid_w > 0,
        0 <= (o % (patch * patch * 3)) / (patch * patch) < 3,
        0 <= ((o / (patch * patch * 3)) / grid_w) * patch + ((o % (patch * patch * 3)) % (patch * patch)) / patch < height,
        0 <= ((o / (patch * patch * 3)) % grid_w) * patch + ((o % (patch * patch * 3)) % (patch * patch)) % patch < width,
        0 <= chw_patch_source(o, patch, grid_w, height, width) < 3 * height * width,
{
    let depth = patch * patch * 3;
    let plane = patch * patch;
    assert(depth > 0 && plane > 0 && depth == 3 * plane) by (nonlinear_arith)
        requires
            patch > 0,
            depth == patch * patch * 3,
            plane == patch * patch,
    ;
    if grid_w == 0 {
        assert(grid_h * grid_w * depth == 0) by (nonlinear_arith)
            requires
                grid_w == 0,
        ;
    }
    lemma_split(o, depth);
    assert(o < (grid_h * grid_w) * depth) by (nonlinear_arith)
        requires
            o < grid_h * grid_w * depth,
    ;
    lemma_quotient_below(o, depth, grid_h * grid_w);
    let k = o / depth;
    let rem = o % depth;
    lemma_split(rem, plane);
    lemma_quotient_below(rem, plane, 3);
    let within = rem % plane;
    lemma_split(within, patch);
    lemma_quotient_below(within, patch, patch);
    lemma_grid_cell(k, within / patch, within % patch, patch, grid_h, grid_w, height, width);
    lemma_planar_index(rem / plane, (k / grid_w) * patch + within / patch, (k % grid_w) * patch + within % patch, height, width);
}

/// Source index bounds of value `o` of the channel-last patch sequence.
proof fn lemma_hwc_source(o: int, patch: int, grid_h: int, grid_w: int, height: int, width: int)
    requires
        patch > 0,
        grid_h * patch <= height,
        grid_w * patch <= width,
        grid_h >= 0,
        grid_w >= 0,
        0 <= o < grid_h * grid_w * (patch * patch * 3),
    ensures
        grid_w > 0,
        0 <= ((o % (patch * patch * 3)) % (patch * 3)) % 3 < 3,
        0 <= ((o / (patch * patch * 3)) / grid_w) * patch + (o % (patch * patch * 3)) / (patch * 3) < height,
        0 <= ((o / (patch * patch * 3)) % grid_w) * patch + ((o % (patch * patch * 3)) % (patch * 3)) / 3 < width,
        0 <= hwc_patch_source(o, patch, grid_w, height, width) < 3 * height * width,
{
    let depth = patch * patch * 3;
    let row_len = patch * 3;
    assert(depth > 0 && row_len > 0 && depth == patch * row_len) by (nonlinear_arith)
        requires
            patch > 0,
            depth == patch * patch * 3,
            row_len == patch * 3,
    ;
    if grid_w == 0 {
        assert(grid_h * grid_w * depth == 0) by (nonlinear_arith)
            requires
                grid_w == 0,
        ;
    }
    lemma_split(o, depth);
    assert(o < (grid_h * grid_w) * depth) by (nonlinear_arith)
        requires
            o < grid_h * grid_w * depth,
    ;
    lemma_quotient_below(o, depth, grid_h * grid_w);
    let k = o / depth;
    let rem = o % depth;
    lemma_split(rem, row_len);
    lemma_quotient_below(rem, row_len, patch);
    let within = rem % row_len;
    lemma_split(within, 3);
    lemma_quotient_below(within, 3, patch);
    lemma_grid_cell(k, rem / row_len, within / 3, patch, grid_h, grid_w, height, width);
    lemma_planar_index(within % 3, (k / grid_w) * patch + rem / row_len, (k % grid_w) * patch + within / 3, height, width);
}

/// Splits a planar RGB image of `height` by `width` into the whole
/// `patch`-pixel patches of its grid, each flattened channel-first.
pub fn patchify_chw<T: Copy>(values: &[T], height: usize, width: usize, patch: usize) -> (r: Vec<T>)
    requires
        patch > 0,
        3 * height * width <= values@.len(),
    ensures
        r@.len() == (height / patch) * (width / patch) * (patch * patch * 3),
        forall|o: int|
            0 <= o < r@.len() ==> #[trigger] r@[o] == values@[chw_patch_source(
                o,
                patch as int,
                (width / patch) as int,
                height as int,
                width as int,
            )],
{
    let n = values.len();
    proof {
        lemma_grid_size(patch as int, height as int, width as int);
    }
    let grid_h = height / patch;
    let grid_w = width / patch;
    if grid_h == 0 || grid_w == 0 {
        assert((height / patch) * (width / patch) * (patch * patch * 3) == 0) by (nonlinear_arith)
            requires
                grid_h == 0 || grid_w == 0,
                grid_h == height / patch,
                grid_w == width / patch,
        ;
        return Vec::new();
    }
    proof {
        assert(patch * patch * 3 <= 3 * height * width) by (nonlinear_arith)
            requires
                grid_h >= 1,
                grid_w >= 1,
                grid_h * patch <= height,
                grid_w * patch <= width,
                patch > 0,
        ;
        assert(grid_h * grid_w <= grid_h * grid_w * (patch * patch * 3) && height * width <= 3 * height
            * width) by (nonlinear_arith)
            requires
                grid_h >= 1,
                grid_w >= 1,
                patch > 0,
        ;
    }
    let plane = patch * patch;
    let depth = plane * 3;
    let count = grid_h * grid_w;
    let total = count * depth;
    let image_plane = height * width;
    let mut patches: Vec<T> = Vec::new();
    let mut o: usize = 0;
    while o < total
        invariant
            patches@.len() == o,
            o <= total,
            total == grid_h * grid_w * (patch * patch * 3),
            plane == patch * patch,
            depth == patch * patch * 3,
            image_plane == height * width,
            grid_h * patch <= height,
            grid_w * patch <= width,
            grid_w == width / patch,
            patch > 0,
            n == values@.len(),
            3 * height * width <= n,
            forall|i: int|
                0 <= i < o ==> #[trigger] patches@[i] == values@[chw_patch_source(
                    i,
                    patch as int,
                    grid_w as int,
                    height as int,
                    width as int,
                )],
        decreases total - o,
    {
        proof {
            lemma_chw_source(o as int, patch as int, grid_h as int, grid_w as int, height as int, width as int);
        }
        let k = o / depth;
        let rem = o % depth;
        let channel = rem / plane;
        let within = rem % plane;
        let line = (k / grid_w) * patch + within / patch;
        let column = (k % grid_w) * patch + within % patch;
        proof {
            lemma_planar_index(channel as int, line as int, column as int, height as int, width as int);
        }
        let source = channel * image_plane + line * width + column;
        patches.push(values[source]);
        o = o + 1;
    }
    patches
}

/// Splits a planar RGB image of `height` by `width` into the whole
/// `patch`-pixel patches of its grid, each flattened channel-last.
pub fn patchify_hwc<T: Copy>(values: &[T], height: usize, width: usize, patch: usize) -> (r: Vec<T>)
    requires
        patch > 0,
        3 * height * width <= values@.len(),
    ensures
        r@.len() == (height / patch) * (width / patch) * (patch * patch * 3),
        forall|o: int|
            0 <= o < r@.len() ==> #[trigger] r@[o] == values@[hwc_patch_source(
                o,
                patch as int,
                (width / patch) as int,
                height as int,
                width as int,
            )],
{
    let n = values.len();
    proof {
        lemma_grid_size(patch as int, height as int, width as int);
        assert(0 < patch * 3 <= patch * patch * 3) by (nonlinear_arith)
            requires
                patch > 0,
        ;
    }
    let grid_h = height / patch;
    let grid_w = width / patch;
    if grid_h == 0 || grid_w == 0 {
        assert((height / patch) * (width / patch) * (patch * patch * 3) == 0) by (nonlinear_arith)
            requires
                grid_h == 0 || grid_w == 0,
                grid_h == height / patch,
                grid_w == width / patch,
        ;
        return Vec::new();
    }
    proof {
        assert(patch * patch * 3 <= 3 * height * width) by (nonlinear_arith)
            requires
                grid_h >= 1,
                grid_w >= 1,
                grid_h * patch <= height,
                grid_w * patch <= width,
                patch > 0,
        ;
        assert(grid_h * grid_w <= grid_h * grid_w * (patch * patch * 3) && height * width <= 3 * height
            * width) by (nonlinear_arith)
            requires
                grid_h >= 1,
                grid_w >= 1,
                patch > 0,
        ;
    }
    let row_len = patch * 3;
    let depth = patch * patch * 3;
    let count = grid_h * grid_w;
    let total = count * depth;
    let image_plane = height * width;
    let mut patches: Vec<T> = Vec::new();
    let mut o: usize = 0;
    while o < total
        invariant
            patches@.len() == o,
            o <= total,
            total == grid_h * grid_w * (patch * patch * 3),
            row_len == patch * 3,
            depth == patch * patch * 3,
            image_plane == height * width,
            grid_h * patch <= height,
            grid_w * patch <= width,
            grid_w == width / patch,
            patch > 0,
            n == values@.len(),
            3 * height * width <= n,
            forall|i: int|
                0 <= i < o ==> #[trigger] patches@[i] == values@[hwc_patch_source(
                    i,
                    patch as int,
                    grid_w as int,
                    height as int,
                    width as int,
                )],
        decreases total - o,
    {
        proof {
            lemma_hwc_source(o as int, patch as int, grid_h as int, grid_w as int, height as int, width as int);
        }
        let k = o / depth;
        let rem = o % depth;
        let within = rem % row_len;
        let channel = within % 3;
        let line = (k / grid_w) * patch + rem / row_len;
        let column = (k % grid_w) * patch + within / 3;
        proof {
            lemma_planar_index(channel as int, line as int, column as int, height as int, width as int);
        }
        let source = channel * image_plane + line * width + column;
        patches.push(values[source]);
        o = o + 1;
    }
    patches
}


/// Which pixel pipeline a multimodal class runs.
#[derive(Clone, Copy, Debug, PartialEq, Eq)]
pub enum PixelRoute {
    /// Llama 4 tiles with bf16-rounded normalization.
    Llama4,
    /// PP-OCR text-recognition resizing.
    PpOcr,
    /// SLANeXt table-recognition resizing.
    SlaNeXt,
    /// The generic square resize and normalization given by [`pixel_spec`].
    Generic,
}

/// The pixel pipeline of `class_name`.
pub open spec fn spec_pixel_route(class_name: Seq<char>) -> PixelRoute {
    if class_name == "Llama4ImageProcessor"@ {
        PixelRoute::Llama4
    } else if class_name == "PPOCRV5ServerRecImageProcessor"@ || class_name == "PPOCRV6SmallRecImageProcessor"@ {
        PixelRoute::PpOcr
    } else if class_name == "SLANeXtImageProcessor"@ {
        PixelRoute::SlaNeXt
    } else {
        PixelRoute::Generic
    }
}

/// Returns the pixel pipeline of `class_name`.
pub fn pixel_route(class_name: &str) -> (r: PixelRoute)
    ensures
        r == spec_pixel_route(class_name@),
{
    if str_equal(class_name, "Llama4ImageProcessor") {
        PixelRoute::Llama4
    } else if str_equal(class_name, "PPOCRV5ServerRecImageProcessor") || str_equal(class_name, "PPOCRV6SmallRecImageProcessor") {
        PixelRoute::PpOcr
    } else if str_equal(class_name, "SLANeXtImageProcessor") {
        PixelRoute::SlaNeXt
    } else {
        PixelRoute::Generic
    }
}

/// The generic pixel pipeline of `class_name`: a square resize to the class edge with its
/// filter and the backend's parity, RGB conversion, and the class's rescale and
/// normalization, producing an `NCHW` tensor.
pub open spec fn generic_pixel_config_is(c: ImageProcessorConfig, class_name: Seq<char>, backend: MultimodalResizeBackend) -> bool {
    config_is(
        c,
        true,
        Some(spec_pixel_edge(class_name)),
        Some(spec_pixel_edge(class_name)),
        ResizeMode::Default,
        spec_pixel_filter(class_name),
        match backend {
            MultimodalResizeBackend::Torchvision => ResizeParity::Torchvision,
            MultimodalResizeBackend::Pillow => ResizeParity::Compatibility,
        },
        ImageDecodeBackend::ImageCrate,
        BatchExecution::Sequential,
        Some(PixelFormat::Rgb8),
        class_name != "LayoutLMv2ImageProcessor"@,
        spec_pixel_rescale_factor(class_name),
        !listed(spec_unnormalized_classes(), class_name),
        spec_pixel_mean(class_name),
        spec_pixel_std(class_name),
        false,
        Layout::NCHW,
    )
}

/// Builds the generic tensor-stage configuration of `class_name` from its pixel settings.
pub fn generic_pixel_config(class_name: &str, backend: MultimodalResizeBackend) -> (r: ImageProcessorConfig)
    ensures
        generic_pixel_config_is(r, class_name@, backend),
{
    let spec = pixel_spec(class_name);
    let mean = vec![spec.mean[0], spec.mean[1], spec.mean[2]];
    let std = vec![spec.std[0], spec.std[1], spec.std[2]];
    assert(mean@ =~= spec.mean@);
    assert(std@ =~= spec.std@);
    ImageProcessorConfig {
        do_resize: true,
        height: Some(spec.edge),
        width: Some(spec.edge),
        resize_mode: ResizeMode::Default,
        resample: spec.filter,
        resize_parity: backend.parity(),
        decode_backend: ImageDecodeBackend::ImageCrate,
        batch_execution: BatchExecution::Sequential,
        pixel_format: Some(PixelFormat::Rgb8),
        do_rescale: spec.do_rescale,
        rescale_factor: spec.rescale_factor,
        do_normalize: spec.do_normalize,
        image_mean: mean,
        image_std: std,
        do_binarize: false,
        output_layout: Layout::NCHW,
    }
}
} // verus!
