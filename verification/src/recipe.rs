//! Processor recipes: the declarative description of a processor's stages, its input
//! policy, output layout and the postprocessing its outputs take.

use vstd::prelude::*;

use crate::layout::{batched_layout_for_image_layout, spec_batched_layout_for_image_layout, ImageLayout, Layout};
use crate::settings::{BatchExecution, ImageDecodeBackend, PixelFormat, ResizeFilter, ResizeMode, ResizeParity};

verus! {

/// How a recipe stage resizes.
#[derive(Clone, Copy, Debug, PartialEq, Eq)]
pub enum RecipeResize {
    /// Aspect-preserving resize of the shorter side, with an optional cap on the longer one.
    ShortestEdge {
        /// Shorter-side target.
        shortest_edge: usize,
        /// Cap on the longer side.
        longest_edge: Option<usize>,
        /// Resampling filter.
        filter: ResizeFilter,
        /// Resize parity backend.
        parity: ResizeParity,
    },
    /// Aspect-preserving resize of the longer side.
    LongestEdge {
        /// Longer-side target.
        longest_edge: usize,
        /// Resampling filter.
        filter: ResizeFilter,
        /// Resize parity backend.
        parity: ResizeParity,
    },
    /// Resize to a size chosen per call.
    Dynamic {
        /// How the image is mapped onto the chosen size.
        mode: ResizeMode,
        /// Resampling filter.
        filter: ResizeFilter,
        /// Resize parity backend.
        parity: ResizeParity,
    },
}

/// One stage of a processor recipe; floating-point values are `f32` bit patterns.
#[derive(Clone, Debug, PartialEq)]
pub enum RecipeStage {
    /// Convert decoded pixels to this format.
    ConvertPixelFormat(PixelFormat),
    /// Resize.
    Resize(RecipeResize),
    /// Multiply values by this factor.
    Rescale(u32),
    /// Subtract the per-channel mean and divide by the standard deviation.
    Normalize {
        /// Per-channel means.
        mean: Vec<u32>,
        /// Per-channel standard deviations.
        std: Vec<u32>,
    },
    /// Threshold values to zero or one.
    Binarize,
}

/// Where a postprocessing step takes the image sizes it restores outputs to.
#[derive(Clone, Copy, Debug, PartialEq, Eq)]
pub enum RecipeImageSizeSource {
    /// Sizes the caller passes in.
    CallerProvided,
    /// The original sizes recorded by preprocessing.
    OriginalSizes,
    /// The resized sizes recorded by preprocessing.
    ReshapedInputSizes,
}

/// Postprocessing that a recipe's model outputs take; thresholds are `f32` bit patterns.
#[derive(Clone, Copy, Debug, PartialEq, Eq)]
pub enum RecipePostprocess {
    /// Object detection from class logits and center-format boxes.
    ObjectDetection {
        /// Name of the logits output.
        logits: &'static str,
        /// Name of the box output.
        boxes: &'static str,
        /// Score threshold.
        threshold: u32,
        /// Where the target sizes come from.
        target_sizes: RecipeImageSizeSource,
    },
    /// Binary masks restored from low-resolution mask logits.
    BinaryMasks {
        /// Name of the mask output.
        masks: &'static str,
        /// Where the original sizes come from.
        original_sizes: RecipeImageSizeSource,
        /// Where the resized sizes come from.
        reshaped_input_sizes: RecipeImageSizeSource,
        /// Mask threshold.
        threshold: u32,
    },
}

/// A processor recipe.
#[derive(Clone, Debug, PartialEq)]
pub struct ProcessorRecipe {
    /// Stable recipe identifier.
    pub id: &'static str,
    /// Image decode backend.
    pub decode_backend: ImageDecodeBackend,
    /// Batch execution policy.
    pub batch_execution: BatchExecution,
    /// Stages, in order.
    pub stages: Vec<RecipeStage>,
    /// Batched tensor layout of the output.
    pub output_layout: Layout,
    /// Postprocessing of the model outputs.
    pub postprocess: Vec<RecipePostprocess>,
}

/// Whether `s` normalizes with the statistics `mean` and `std`.
pub open spec fn normalize_stage_is(s: RecipeStage, mean: Seq<u32>, std: Seq<u32>) -> bool {
    s matches RecipeStage::Normalize { mean: m, std: d } && m@ == mean && d@ == std
}

/// Whether `r` is the normalization recipe built from these settings: the given leading
/// stages, then a rescale stage when rescaling is on and a normalize stage when
/// normalization is on, with the batched layout of `output_layout`.
pub open spec fn normalization_recipe_is(
    r: ProcessorRecipe,
    id: &'static str,
    decode_backend: ImageDecodeBackend,
    batch_execution: BatchExecution,
    leading: Seq<RecipeStage>,
    output_layout: ImageLayout,
    do_rescale: bool,
    rescale_factor: u32,
    do_normalize: bool,
    mean: Seq<u32>,
    std: Seq<u32>,
) -> bool {
    let n = leading.len();
    let rescale_at = n;
    let normalize_at = if do_rescale { n + 1 } else { n };
    &&& r.id == id
    &&& r.decode_backend == decode_backend
    &&& r.batch_execution == batch_execution
    &&& r.output_layout == spec_batched_layout_for_image_layout(output_layout)
    &&& r.stages@.len() == n + (if do_rescale { 1int } else { 0 }) + (if do_normalize { 1int } else { 0 })
    &&& r.stages@.subrange(0, n as int) == leading
    &&& do_rescale ==> r.stages@[rescale_at as int] == RecipeStage::Rescale(rescale_factor)
    &&& do_normalize ==> normalize_stage_is(r.stages@[normalize_at as int], mean, std)
}

/// Builds a normalization recipe: the leading stages, then rescaling and normalization
/// where they are on.
pub fn normalization_recipe(
    id: &'static str,
    decode_backend: ImageDecodeBackend,
    batch_execution: BatchExecution,
    leading: Vec<RecipeStage>,
    output_layout: ImageLayout,
    do_rescale: bool,
    rescale_factor: u32,
    do_normalize: bool,
    mean: Vec<u32>,
    std: Vec<u32>,
) -> (r: ProcessorRecipe)
    ensures
        normalization_recipe_is(
            r, id, decode_backend, batch_execution, leading@, output_layout, do_rescale, rescale_factor,
            do_normalize, mean@, std@,
        ),
        r.postprocess@.len() == 0,
{
    let ghost lead = leading@;
    let mut stages = leading;
    if do_rescale {
        stages.push(RecipeStage::Rescale(rescale_factor));
    }
    let ghost before_normalize = stages@;
    if do_normalize {
        stages.push(RecipeStage::Normalize { mean, std });
    }
    assert(stages@.subrange(0, lead.len() as int) =~= lead);
    ProcessorRecipe {
        id,
        decode_backend,
        batch_execution,
        stages,
        output_layout: batched_layout_for_image_layout(output_layout),
        postprocess: Vec::new(),
    }
}

} // verus!
