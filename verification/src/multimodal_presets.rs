//! Audited multimodal presets: the class catalog, alias resolution, recipe
//! validation and the input checks of the compact fixed-square profiles.

use vstd::prelude::*;

use crate::errors::ImageProcessorError;
use crate::media::ImageFrame;
use crate::settings::{PixelFormat, ResizeParity};
use crate::text::{ends_with_seq, str_ends_with, str_equal, str_is_concat3};

verus! {

/// Source revision at which every preset was audited.
pub const AUDIT_COMMIT: &'static str = "6d960ca0a0eba0d2aebc920d8080a9353da468d3";

/// Output edge of the compact fixed-square configuration.
pub const COMPACT_EDGE: usize = 8;

/// Spatial patch edge of the patch-emitting profiles.
pub const PATCH_SIZE: usize = 2;

/// Broad task category for an audited multimodal preset.
#[derive(Clone, Copy, Debug, PartialEq, Eq, Structural)]
pub enum MultimodalCategory {
    /// Vision-language image inputs.
    VisionLanguage,
    /// OCR, layout, table, or document inputs.
    DocumentUnderstanding,
    /// Video or temporal image inputs.
    Video,
}

/// Reusable execution profile shared by related upstream classes.
#[derive(Clone, Copy, Debug, PartialEq, Eq, Structural)]
pub enum MultimodalProfile {
    /// Fixed-size tensor preprocessing.
    Fixed,
    /// Fixed-size preprocessing with a validity mask or size metadata.
    FixedMask,
    /// One-or-more tiled image tensors.
    Tiled,
    /// Qwen-style spatial or temporal patch flattening.
    PatchGrid,
    /// Spatial patches kept as image-shaped frames.
    PatchFrames,
    /// Dynamically packed patch sequences.
    AdaptivePatches,
    /// Fuyu nested canvas output.
    Fuyu,
    /// Gemma 4 padded patch-token output.
    Gemma4,
    /// Gemma 4 unified padded patch-token output.
    Gemma4Unified,
    /// MiniCPM NaViT patch layout.
    MiniCpm,
    /// Phi-4 dynamic-HD image layout.
    Phi4,
    /// Batched frame tensor output.
    Video,
    /// UVDoc BGR input and retained original image.
    UvDoc,
}

/// Patch edge emitted by a profile, if it emits patch tokens.
pub open spec fn spec_profile_patch_size(profile: MultimodalProfile) -> Option<usize> {
    match profile {
        MultimodalProfile::PatchGrid
        | MultimodalProfile::PatchFrames
        | MultimodalProfile::AdaptivePatches
        | MultimodalProfile::Gemma4
        | MultimodalProfile::Gemma4Unified
        | MultimodalProfile::MiniCpm
        | MultimodalProfile::Phi4 => Some(PATCH_SIZE),
        _ => None,
    }
}

/// Whether a profile accepts more than one frame per call.
pub open spec fn spec_profile_accepts_frame_sequences(profile: MultimodalProfile) -> bool {
    profile == MultimodalProfile::PatchGrid || profile == MultimodalProfile::Video
}

/// Fixed square output edge of the compact configuration for a class.
pub open spec fn spec_class_edge(class_name: Seq<char>) -> usize {
    if class_name == "AriaImageProcessor"@ {
        490
    } else if class_name == "Gemma4ImageProcessor"@ || class_name == "Gemma4UnifiedImageProcessor"@ {
        16
    } else if class_name == "GlmImageImageProcessor"@ {
        4
    } else if class_name == "MiniMaxM3VLImageProcessor"@ {
        56
    } else if class_name == "Phi4MultimodalImageProcessor"@ {
        12
    } else {
        COMPACT_EDGE
    }
}

/// Smallest square input edge accepted for a class.
pub open spec fn spec_class_minimum_input_edge(class_name: Seq<char>) -> usize {
    if class_name == "GlmImageImageProcessor"@ {
        4
    } else {
        COMPACT_EDGE
    }
}

/// Returns the fixed square output edge of the compact configuration for a class.
pub fn class_edge(class_name: &str) -> (r: usize)
    ensures
        r == spec_class_edge(class_name@),
{
    if str_equal(class_name, "AriaImageProcessor") {
        490
    } else if str_equal(class_name, "Gemma4ImageProcessor") || str_equal(class_name, "Gemma4UnifiedImageProcessor") {
        16
    } else if str_equal(class_name, "GlmImageImageProcessor") {
        4
    } else if str_equal(class_name, "MiniMaxM3VLImageProcessor") {
        56
    } else if str_equal(class_name, "Phi4MultimodalImageProcessor") {
        12
    } else {
        COMPACT_EDGE
    }
}

/// The recipe identifier a preset of model type `model_type` must carry.
pub open spec fn spec_expected_recipe_id(model_type: Seq<char>) -> Seq<char> {
    "transformers."@ + model_type + "_image_processor"@
}

/// Static mapping from an upstream class to its Rust execution profile.
#[derive(Clone, Copy, Debug, PartialEq, Eq)]
pub struct MultimodalPreset {
    class_name: &'static str,
    model_type: &'static str,
    recipe_id: &'static str,
    source_path: &'static str,
    category: MultimodalCategory,
    profile: MultimodalProfile,
}

impl MultimodalPreset {
    /// Canonical upstream processor class name.
    pub closed spec fn spec_class_name(self) -> &'static str {
        self.class_name
    }

    /// Upstream model type.
    pub closed spec fn spec_model_type(self) -> &'static str {
        self.model_type
    }

    /// Stable class-specific recipe identifier.
    pub closed spec fn spec_recipe_id(self) -> &'static str {
        self.recipe_id
    }

    /// Audited upstream source file.
    pub closed spec fn spec_source_path(self) -> &'static str {
        self.source_path
    }

    /// Broad task category.
    pub closed spec fn spec_category(self) -> MultimodalCategory {
        self.category
    }

    /// Reusable execution profile.
    pub closed spec fn spec_profile(self) -> MultimodalProfile {
        self.profile
    }

    /// Fixed square output edge.
    pub open spec fn spec_output_edge(self) -> usize {
        spec_class_edge(self.spec_class_name()@)
    }

    /// Smallest accepted square input edge.
    pub open spec fn spec_minimum_input_edge(self) -> usize {
        spec_class_minimum_input_edge(self.spec_class_name()@)
    }

    /// Input edge of the audited full-value payload.
    pub open spec fn spec_audited_input_edge(self) -> usize {
        spec_class_edge(self.spec_class_name()@)
    }

    /// Spatial patch size, when the profile emits patch tokens.
    pub open spec fn spec_patch_size(self) -> Option<usize> {
        spec_profile_patch_size(self.spec_profile())
    }

    /// Returns the canonical upstream processor class name.
    pub fn class_name(self) -> (r: &'static str)
        ensures
            r == self.spec_class_name(),
    {
        self.class_name
    }

    /// Returns the upstream model type.
    pub fn model_type(self) -> (r: &'static str)
        ensures
            r == self.spec_model_type(),
    {
        self.model_type
    }

    /// Returns the stable class-specific recipe identifier.
    pub fn recipe_id(self) -> (r: &'static str)
        ensures
            r == self.spec_recipe_id(),
    {
        self.recipe_id
    }

    /// Returns the source file audited at [`Self::audit_commit`].
    pub fn source_path(self) -> (r: &'static str)
        ensures
            r == self.spec_source_path(),
    {
        self.source_path
    }

    /// Returns the broad task category.
    pub fn category(self) -> (r: MultimodalCategory)
        ensures
            r == self.spec_category(),
    {
        self.category
    }

    /// Returns the reusable execution profile.
    pub fn profile(self) -> (r: MultimodalProfile)
        ensures
            r == self.spec_profile(),
    {
        self.profile
    }

    /// Returns the exact upstream source revision used for the audit.
    pub fn audit_commit(self) -> (r: &'static str)
        ensures
            r == AUDIT_COMMIT,
    {
        AUDIT_COMMIT
    }

    /// Returns the fixed square output edge for this compact configuration.
    pub fn output_edge(self) -> (r: usize)
        ensures
            r == self.spec_output_edge(),
    {
        class_edge(self.class_name)
    }

    /// Returns the smallest square RGB input edge accepted by this preset.
    pub fn minimum_input_edge(self) -> (r: usize)
        ensures
            r == self.spec_minimum_input_edge(),
    {
        if str_equal(self.class_name, "GlmImageImageProcessor") {
            4
        } else {
            COMPACT_EDGE
        }
    }

    /// Returns the input edge used by the audited full-value payload.
    pub fn audited_input_edge(self) -> (r: usize)
        ensures
            r == self.spec_audited_input_edge(),
    {
        class_edge(self.class_name)
    }

    /// Returns the spatial patch size when this profile emits patch tokens.
    pub fn patch_size(self) -> (r: Option<usize>)
        ensures
            r == self.spec_patch_size(),
    {
        match self.profile {
            MultimodalProfile::PatchGrid
            | MultimodalProfile::PatchFrames
            | MultimodalProfile::AdaptivePatches
            | MultimodalProfile::Gemma4
            | MultimodalProfile::Gemma4Unified
            | MultimodalProfile::MiniCpm
            | MultimodalProfile::Phi4 => Some(PATCH_SIZE),
            _ => None,
        }
    }

    /// Builds and validates the typed execution recipe for this preset.
    pub fn processor_recipe(self) -> (r: Result<MultimodalRecipe, MultimodalRecipeError>)
        ensures
            match spec_recipe_check(self) {
                Err(e) => r == Err::<MultimodalRecipe, MultimodalRecipeError>(e),
                Ok(()) => r matches Ok(recipe) && recipe.spec_preset() == self,
            },
            r == spec_processor_recipe(self),
    {
        if !str_is_concat3(self.recipe_id, "transformers.", self.model_type, "_image_processor") {
            return Err(MultimodalRecipeError::InvalidIdentifier {
                class_name: self.class_name,
                recipe_id: self.recipe_id,
            });
        }
        let output_edge = self.output_edge();
        let minimum_input_edge = self.minimum_input_edge();
        let audited_input_edge = self.audited_input_edge();
        if output_edge == 0 || minimum_input_edge == 0 || audited_input_edge < minimum_input_edge {
            return Err(MultimodalRecipeError::InvalidGeometry {
                class_name: self.class_name,
                output_edge,
                minimum_input_edge,
                audited_input_edge,
            });
        }
        let patch_size = self.patch_size();
        if let Some(patch) = patch_size {
            if patch == 0 || output_edge % patch != 0 {
                return Err(MultimodalRecipeError::InvalidPatchGeometry {
                    class_name: self.class_name,
                    output_edge,
                    patch_size: patch,
                });
            }
        }
        Ok(MultimodalRecipe { preset: self, output_edge, minimum_input_edge, audited_input_edge, patch_size })
    }
}

/// The recipe validated from `preset`: the first failed check, or the
/// preset with its geometry.
pub closed spec fn spec_processor_recipe(preset: MultimodalPreset) -> Result<MultimodalRecipe, MultimodalRecipeError> {
    match spec_recipe_check(preset) {
        Err(e) => Err(e),
        Ok(()) => Ok(MultimodalRecipe {
            preset,
            output_edge: preset.spec_output_edge(),
            minimum_input_edge: preset.spec_minimum_input_edge(),
            audited_input_edge: preset.spec_audited_input_edge(),
            patch_size: preset.spec_patch_size(),
        }),
    }
}

impl TryFrom<MultimodalPreset> for MultimodalRecipe {
    type Error = MultimodalRecipeError;

    /// Builds and validates the recipe of `preset`, as
    /// [`MultimodalPreset::processor_recipe`] does.
    fn try_from(preset: MultimodalPreset) -> (r: Result<MultimodalRecipe, MultimodalRecipeError>) {
        preset.processor_recipe()
    }
}

impl vstd::std_specs::convert::TryFromSpecImpl<MultimodalPreset> for MultimodalRecipe {
    open spec fn obeys_try_from_spec() -> bool {
        true
    }

    open spec fn try_from_spec(preset: MultimodalPreset) -> Result<MultimodalRecipe, MultimodalRecipeError> {
        spec_processor_recipe(preset)
    }
}

/// Validation errors for [`MultimodalRecipe`].
#[allow(inconsistent_fields)]
#[derive(Clone, Copy, Debug, PartialEq, Eq)]
pub enum MultimodalRecipeError {
    /// The stable recipe identifier does not match the preset model type.
    InvalidIdentifier {
        /// Canonical processor class.
        class_name: &'static str,
        /// Invalid recipe identifier.
        recipe_id: &'static str,
    },
    /// One or more fixed-square geometry values are invalid.
    InvalidGeometry {
        /// Canonical processor class.
        class_name: &'static str,
        /// Fixed output edge.
        output_edge: usize,
        /// Minimum accepted input edge.
        minimum_input_edge: usize,
        /// Audited parity input edge.
        audited_input_edge: usize,
    },
    /// Patch geometry does not evenly cover the fixed output.
    InvalidPatchGeometry {
        /// Canonical processor class.
        class_name: &'static str,
        /// Fixed output edge.
        output_edge: usize,
        /// Spatial patch edge.
        patch_size: usize,
    },
}

/// The recipe validation of a preset: the identifier must be
/// `transformers.<model_type>_image_processor`, the edges must be non-zero with the
/// audited edge at least the minimum, and a patch edge must be non-zero and divide
/// the output edge.
pub open spec fn spec_recipe_check(preset: MultimodalPreset) -> Result<(), MultimodalRecipeError> {
    let output_edge = preset.spec_output_edge();
    let minimum_input_edge = preset.spec_minimum_input_edge();
    let audited_input_edge = preset.spec_audited_input_edge();
    if preset.spec_recipe_id()@ != spec_expected_recipe_id(preset.spec_model_type()@) {
        Err(MultimodalRecipeError::InvalidIdentifier {
            class_name: preset.spec_class_name(),
            recipe_id: preset.spec_recipe_id(),
        })
    } else if output_edge == 0 || minimum_input_edge == 0 || audited_input_edge < minimum_input_edge {
        Err(MultimodalRecipeError::InvalidGeometry {
            class_name: preset.spec_class_name(),
            output_edge,
            minimum_input_edge,
            audited_input_edge,
        })
    } else {
        match preset.spec_patch_size() {
            Some(patch) => if patch == 0 || output_edge % patch != 0 {
                Err(MultimodalRecipeError::InvalidPatchGeometry {
                    class_name: preset.spec_class_name(),
                    output_edge,
                    patch_size: patch,
                })
            } else {
                Ok(())
            },
            None => Ok(()),
        }
    }
}

/// Validated Rust-native execution recipe for a multimodal preset.
#[derive(Clone, Copy, Debug, PartialEq, Eq)]
pub struct MultimodalRecipe {
    preset: MultimodalPreset,
    output_edge: usize,
    minimum_input_edge: usize,
    audited_input_edge: usize,
    patch_size: Option<usize>,
}

impl MultimodalRecipe {
    /// A recipe records its preset's geometry, and that geometry passed validation.
    #[verifier::type_invariant]
    spec fn well_formed(self) -> bool {
        &&& spec_recipe_check(self.preset) is Ok
        &&& self.output_edge == self.preset.spec_output_edge()
        &&& self.minimum_input_edge == self.preset.spec_minimum_input_edge()
        &&& self.audited_input_edge == self.preset.spec_audited_input_edge()
        &&& self.patch_size == self.preset.spec_patch_size()
    }

    /// The preset this recipe was validated from.
    pub closed spec fn spec_preset(self) -> MultimodalPreset {
        self.preset
    }

    /// Returns the stable class-specific recipe identifier.
    pub fn id(self) -> (r: &'static str)
        ensures
            r == self.spec_preset().spec_recipe_id(),
    {
        self.preset.recipe_id
    }

    /// Returns the preset represented by this recipe.
    pub fn preset(self) -> (r: MultimodalPreset)
        ensures
            r == self.spec_preset(),
    {
        self.preset
    }

    /// Returns the canonical upstream processor class name.
    pub fn class_name(self) -> (r: &'static str)
        ensures
            r == self.spec_preset().spec_class_name(),
    {
        self.preset.class_name
    }

    /// Returns the upstream model type.
    pub fn model_type(self) -> (r: &'static str)
        ensures
            r == self.spec_preset().spec_model_type(),
    {
        self.preset.model_type
    }

    /// Returns the broad task category.
    pub fn category(self) -> (r: MultimodalCategory)
        ensures
            r == self.spec_preset().spec_category(),
    {
        self.preset.category
    }

    /// Returns the reusable execution profile.
    pub fn profile(self) -> (r: MultimodalProfile)
        ensures
            r == self.spec_preset().spec_profile(),
    {
        self.preset.profile
    }

    /// Returns the fixed square output edge.
    pub fn output_edge(self) -> (r: usize)
        ensures
            r == self.spec_preset().spec_output_edge(),
            r > 0,
    {
        proof {
            use_type_invariant(self);
        }
        self.output_edge
    }

    /// Returns the smallest accepted square RGB input edge.
    pub fn minimum_input_edge(self) -> (r: usize)
        ensures
            r == self.spec_preset().spec_minimum_input_edge(),
            r > 0,
    {
        proof {
            use_type_invariant(self);
        }
        self.minimum_input_edge
    }

    /// Returns the input edge used by the audited parity payload.
    pub fn audited_input_edge(self) -> (r: usize)
        ensures
            r == self.spec_preset().spec_audited_input_edge(),
            r >= self.spec_preset().spec_minimum_input_edge(),
    {
        proof {
            use_type_invariant(self);
        }
        self.audited_input_edge
    }

    /// Returns the spatial patch size when the recipe emits patch tokens.
    pub fn patch_size(self) -> (r: Option<usize>)
        ensures
            r == self.spec_preset().spec_patch_size(),
            r matches Some(p) ==> p > 0 && self.spec_preset().spec_output_edge() % p == 0,
    {
        proof {
            use_type_invariant(self);
        }
        self.patch_size
    }

    /// Builds an executable processor from this validated recipe.
    pub fn build(self) -> (r: Result<MultimodalProcessor, MultimodalProcessorError>)
        ensures
            for_class_outcome(self.spec_preset().spec_class_name()@, r),
    {
        MultimodalProcessor::for_class(self.preset.class_name)
    }
}

/// Every compact vision-language, document, and video preset, in catalog order.
pub closed spec fn spec_multimodal_presets() -> Seq<MultimodalPreset> {
    seq![
        MultimodalPreset {
            class_name: "AriaImageProcessor",
            model_type: "aria",
            recipe_id: "transformers.aria_image_processor",
            source_path: "transformers/models/aria/image_processing_aria.py",
            category: MultimodalCategory::VisionLanguage,
            profile: MultimodalProfile::Tiled,
        },
        MultimodalPreset {
            class_name: "BlipImageProcessor",
            model_type: "blip",
            recipe_id: "transformers.blip_image_processor",
            source_path: "transformers/models/blip/image_processing_blip.py",
            category: MultimodalCategory::VisionLanguage,
            profile: MultimodalProfile::Fixed,
        },
        MultimodalPreset {
            class_name: "BridgeTowerImageProcessor",
            model_type: "bridgetower",
            recipe_id: "transformers.bridgetower_image_processor",
            source_path: "transformers/models/bridgetower/image_processing_bridgetower.py",
            category: MultimodalCategory::VisionLanguage,
            profile: MultimodalProfile::FixedMask,
        },
        MultimodalPreset {
            class_name: "ChameleonImageProcessor",
            model_type: "chameleon",
            recipe_id: "transformers.chameleon_image_processor",
            source_path: "transformers/models/chameleon/image_processing_chameleon.py",
            category: MultimodalCategory::VisionLanguage,
            profile: MultimodalProfile::Fixed,
        },
        MultimodalPreset {
            class_name: "Cohere2VisionImageProcessor",
            model_type: "cohere2_vision",
            recipe_id: "transformers.cohere2_vision_image_processor",
            source_path: "transformers/models/cohere2_vision/image_processing_cohere2_vision.py",
            category: MultimodalCategory::VisionLanguage,
            profile: MultimodalProfile::Tiled,
        },
        MultimodalPreset {
            class_name: "DeepseekOcr2ImageProcessor",
            model_type: "deepseek_ocr2",
            recipe_id: "transformers.deepseek_ocr2_image_processor",
            source_path: "transformers/models/deepseek_ocr2/image_processing_deepseek_ocr2.py",
            category: MultimodalCategory::DocumentUnderstanding,
            profile: MultimodalProfile::Tiled,
        },
        MultimodalPreset {
            class_name: "DeepseekVLHybridImageProcessor",
            model_type: "deepseek_vl_hybrid",
            recipe_id: "transformers.deepseek_vl_hybrid_image_processor",
            source_path: "transformers/models/deepseek_vl_hybrid/image_processing_deepseek_vl_hybrid.py",
            category: MultimodalCategory::VisionLanguage,
            profile: MultimodalProfile::Fixed,
        },
        MultimodalPreset {
            class_name: "DeepseekVLImageProcessor",
            model_type: "deepseek_vl",
            recipe_id: "transformers.deepseek_vl_image_processor",
            source_path: "transformers/models/deepseek_vl/image_processing_deepseek_vl.py",
            category: MultimodalCategory::VisionLanguage,
            profile: MultimodalProfile::Fixed,
        },
        MultimodalPreset {
            class_name: "Emu3ImageProcessor",
            model_type: "emu3",
            recipe_id: "transformers.emu3_image_processor",
            source_path: "transformers/models/emu3/image_processing_emu3.py",
            category: MultimodalCategory::VisionLanguage,
            profile: MultimodalProfile::FixedMask,
        },
        MultimodalPreset {
            class_name: "Ernie4_5_VLMoeImageProcessor",
            model_type: "ernie4_5_vl_moe",
            recipe_id: "transformers.ernie4_5_vl_moe_image_processor",
            source_path: "transformers/models/ernie4_5_vl_moe/image_processing_ernie4_5_vl_moe.py",
            category: MultimodalCategory::VisionLanguage,
            profile: MultimodalProfile::PatchGrid,
        },
        MultimodalPreset {
            class_name: "FuyuImageProcessor",
            model_type: "fuyu",
            recipe_id: "transformers.fuyu_image_processor",
            source_path: "transformers/models/fuyu/image_processing_fuyu.py",
            category: MultimodalCategory::VisionLanguage,
            profile: MultimodalProfile::Fuyu,
        },
        MultimodalPreset {
            class_name: "Gemma4ImageProcessor",
            model_type: "gemma4",
            recipe_id: "transformers.gemma4_image_processor",
            source_path: "transformers/models/gemma4/image_processing_gemma4.py",
            category: MultimodalCategory::VisionLanguage,
            profile: MultimodalProfile::Gemma4,
        },
        MultimodalPreset {
            class_name: "Gemma4UnifiedImageProcessor",
            model_type: "gemma4_unified",
            recipe_id: "transformers.gemma4_unified_image_processor",
            source_path: "transformers/models/gemma4_unified/image_processing_gemma4_unified.py",
            category: MultimodalCategory::VisionLanguage,
            profile: MultimodalProfile::Gemma4Unified,
        },
        MultimodalPreset {
            class_name: "Glm46VImageProcessor",
            model_type: "glm46v",
            recipe_id: "transformers.glm46v_image_processor",
            source_path: "transformers/models/glm46v/image_processing_glm46v.py",
            category: MultimodalCategory::VisionLanguage,
            profile: MultimodalProfile::PatchGrid,
        },
        MultimodalPreset {
            class_name: "Glm4vImageProcessor",
            model_type: "glm4v",
            recipe_id: "transformers.glm4v_image_processor",
            source_path: "transformers/models/glm4v/image_processing_glm4v.py",
            category: MultimodalCategory::VisionLanguage,
            profile: MultimodalProfile::PatchGrid,
        },
        MultimodalPreset {
            class_name: "GlmImageImageProcessor",
            model_type: "glm_image",
            recipe_id: "transformers.glm_image_image_processor",
            source_path: "transformers/models/glm_image/image_processing_glm_image.py",
            category: MultimodalCategory::VisionLanguage,
            profile: MultimodalProfile::PatchGrid,
        },
        MultimodalPreset {
            class_name: "GlmgaImageProcessor",
            model_type: "glmga",
            recipe_id: "transformers.glmga_image_processor",
            source_path: "transformers/models/glmga/image_processing_glmga.py",
            category: MultimodalCategory::VisionLanguage,
            profile: MultimodalProfile::PatchGrid,
        },
        MultimodalPreset {
            class_name: "GotOcr2ImageProcessor",
            model_type: "got_ocr2",
            recipe_id: "transformers.got_ocr2_image_processor",
            source_path: "transformers/models/got_ocr2/image_processing_got_ocr2.py",
            category: MultimodalCategory::DocumentUnderstanding,
            profile: MultimodalProfile::Tiled,
        },
        MultimodalPreset {
            class_name: "HunYuanVLImageProcessor",
            model_type: "hunyuan_vl",
            recipe_id: "transformers.hunyuan_vl_image_processor",
            source_path: "transformers/models/hunyuan_vl/image_processing_hunyuan_vl.py",
            category: MultimodalCategory::VisionLanguage,
            profile: MultimodalProfile::PatchGrid,
        },
        MultimodalPreset {
            class_name: "Idefics2ImageProcessor",
            model_type: "idefics2",
            recipe_id: "transformers.idefics2_image_processor",
            source_path: "transformers/models/idefics2/image_processing_idefics2.py",
            category: MultimodalCategory::VisionLanguage,
            profile: MultimodalProfile::FixedMask,
        },
        MultimodalPreset {
            class_name: "IdeficsImageProcessor",
            model_type: "idefics",
            recipe_id: "transformers.idefics_image_processor",
            source_path: "transformers/models/idefics/image_processing_idefics.py",
            category: MultimodalCategory::VisionLanguage,
            profile: MultimodalProfile::Fixed,
        },
        MultimodalPreset {
            class_name: "JanusImageProcessor",
            model_type: "janus",
            recipe_id: "transformers.janus_image_processor",
            source_path: "transformers/models/janus/image_processing_janus.py",
            category: MultimodalCategory::VisionLanguage,
            profile: MultimodalProfile::Fixed,
        },
        MultimodalPreset {
            class_name: "Kimi_K25ImageProcessor",
            model_type: "kimi_k25",
            recipe_id: "transformers.kimi_k25_image_processor",
            source_path: "transformers/models/kimi_k25/image_processing_kimi_k25.py",
            category: MultimodalCategory::VisionLanguage,
            profile: MultimodalProfile::PatchFrames,
        },
        MultimodalPreset {
            class_name: "Kosmos2_5ImageProcessor",
            model_type: "kosmos2_5",
            recipe_id: "transformers.kosmos2_5_image_processor",
            source_path: "transformers/models/kosmos2_5/image_processing_kosmos2_5.py",
            category: MultimodalCategory::DocumentUnderstanding,
            profile: MultimodalProfile::AdaptivePatches,
        },
        MultimodalPreset {
            class_name: "LayoutLMv2ImageProcessor",
            model_type: "layoutlmv2",
            recipe_id: "transformers.layoutlmv2_image_processor",
            source_path: "transformers/models/layoutlmv2/image_processing_layoutlmv2.py",
            category: MultimodalCategory::DocumentUnderstanding,
            profile: MultimodalProfile::Fixed,
        },
        MultimodalPreset {
            class_name: "LayoutLMv3ImageProcessor",
            model_type: "layoutlmv3",
            recipe_id: "transformers.layoutlmv3_image_processor",
            source_path: "transformers/models/layoutlmv3/image_processing_layoutlmv3.py",
            category: MultimodalCategory::DocumentUnderstanding,
            profile: MultimodalProfile::Fixed,
        },
        MultimodalPreset {
            class_name: "Lfm2VlImageProcessor",
            model_type: "lfm2_vl",
            recipe_id: "transformers.lfm2_vl_image_processor",
            source_path: "transformers/models/lfm2_vl/image_processing_lfm2_vl.py",
            category: MultimodalCategory::VisionLanguage,
            profile: MultimodalProfile::AdaptivePatches,
        },
        MultimodalPreset {
            class_name: "Llama4ImageProcessor",
            model_type: "llama4",
            recipe_id: "transformers.llama4_image_processor",
            source_path: "transformers/models/llama4/image_processing_llama4.py",
            category: MultimodalCategory::VisionLanguage,
            profile: MultimodalProfile::Tiled,
        },
        MultimodalPreset {
            class_name: "LlavaImageProcessor",
            model_type: "llava",
            recipe_id: "transformers.llava_image_processor",
            source_path: "transformers/models/llava/image_processing_llava.py",
            category: MultimodalCategory::VisionLanguage,
            profile: MultimodalProfile::Fixed,
        },
        MultimodalPreset {
            class_name: "LlavaOnevisionImageProcessor",
            model_type: "llava_onevision",
            recipe_id: "transformers.llava_onevision_image_processor",
            source_path: "transformers/models/llava_onevision/image_processing_llava_onevision.py",
            category: MultimodalCategory::VisionLanguage,
            profile: MultimodalProfile::Tiled,
        },
        MultimodalPreset {
            class_name: "MiniCPMV4_6ImageProcessor",
            model_type: "minicpmv4_6",
            recipe_id: "transformers.minicpmv4_6_image_processor",
            source_path: "transformers/models/minicpmv4_6/image_processing_minicpmv4_6.py",
            category: MultimodalCategory::VisionLanguage,
            profile: MultimodalProfile::MiniCpm,
        },
        MultimodalPreset {
            class_name: "MiniMaxM3VLImageProcessor",
            model_type: "minimax_m3_vl",
            recipe_id: "transformers.minimax_m3_vl_image_processor",
            source_path: "transformers/models/minimax_m3_vl/image_processing_minimax_m3_vl.py",
            category: MultimodalCategory::VisionLanguage,
            profile: MultimodalProfile::PatchGrid,
        },
        MultimodalPreset {
            class_name: "NougatImageProcessor",
            model_type: "nougat",
            recipe_id: "transformers.nougat_image_processor",
            source_path: "transformers/models/nougat/image_processing_nougat.py",
            category: MultimodalCategory::DocumentUnderstanding,
            profile: MultimodalProfile::Fixed,
        },
        MultimodalPreset {
            class_name: "Ovis2ImageProcessor",
            model_type: "ovis2",
            recipe_id: "transformers.ovis2_image_processor",
            source_path: "transformers/models/ovis2/image_processing_ovis2.py",
            category: MultimodalCategory::VisionLanguage,
            profile: MultimodalProfile::Tiled,
        },
        MultimodalPreset {
            class_name: "PI0ImageProcessor",
            model_type: "pi0",
            recipe_id: "transformers.pi0_image_processor",
            source_path: "transformers/models/pi0/image_processing_pi0.py",
            category: MultimodalCategory::VisionLanguage,
            profile: MultimodalProfile::FixedMask,
        },
        MultimodalPreset {
            class_name: "PPChart2TableImageProcessor",
            model_type: "pp_chart2table",
            recipe_id: "transformers.pp_chart2table_image_processor",
            source_path: "transformers/models/pp_chart2table/image_processing_pp_chart2table.py",
            category: MultimodalCategory::DocumentUnderstanding,
            profile: MultimodalProfile::Fixed,
        },
        MultimodalPreset {
            class_name: "PPFormulaNetImageProcessor",
            model_type: "pp_formulanet",
            recipe_id: "transformers.pp_formulanet_image_processor",
            source_path: "transformers/models/pp_formulanet/image_processing_pp_formulanet.py",
            category: MultimodalCategory::DocumentUnderstanding,
            profile: MultimodalProfile::Fixed,
        },
        MultimodalPreset {
            class_name: "PPOCRV5ServerRecImageProcessor",
            model_type: "pp_ocrv5_server_rec",
            recipe_id: "transformers.pp_ocrv5_server_rec_image_processor",
            source_path: "transformers/models/pp_ocrv5_server_rec/image_processing_pp_ocrv5_server_rec.py",
            category: MultimodalCategory::DocumentUnderstanding,
            profile: MultimodalProfile::Fixed,
        },
        MultimodalPreset {
            class_name: "PPOCRV6SmallRecImageProcessor",
            model_type: "pp_ocrv6_small_rec",
            recipe_id: "transformers.pp_ocrv6_small_rec_image_processor",
            source_path: "transformers/models/pp_ocrv6_small_rec/image_processing_pp_ocrv6_small_rec.py",
            category: MultimodalCategory::DocumentUnderstanding,
            profile: MultimodalProfile::Fixed,
        },
        MultimodalPreset {
            class_name: "PaddleOCRVLImageProcessor",
            model_type: "paddleocr_vl",
            recipe_id: "transformers.paddleocr_vl_image_processor",
            source_path: "transformers/models/paddleocr_vl/image_processing_paddleocr_vl.py",
            category: MultimodalCategory::DocumentUnderstanding,
            profile: MultimodalProfile::PatchFrames,
        },
        MultimodalPreset {
            class_name: "PerceptionLMImageProcessor",
            model_type: "perception_lm",
            recipe_id: "transformers.perception_lm_image_processor",
            source_path: "transformers/models/perception_lm/image_processing_perception_lm.py",
            category: MultimodalCategory::VisionLanguage,
            profile: MultimodalProfile::Tiled,
        },
        MultimodalPreset {
            class_name: "Phi4MultimodalImageProcessor",
            model_type: "phi4_multimodal",
            recipe_id: "transformers.phi4_multimodal_image_processor",
            source_path: "transformers/models/phi4_multimodal/image_processing_phi4_multimodal.py",
            category: MultimodalCategory::VisionLanguage,
            profile: MultimodalProfile::Phi4,
        },
        MultimodalPreset {
            class_name: "Pix2StructImageProcessor",
            model_type: "pix2struct",
            recipe_id: "transformers.pix2struct_image_processor",
            source_path: "transformers/models/pix2struct/image_processing_pix2struct.py",
            category: MultimodalCategory::DocumentUnderstanding,
            profile: MultimodalProfile::AdaptivePatches,
        },
        MultimodalPreset {
            class_name: "SLANeXtImageProcessor",
            model_type: "slanext",
            recipe_id: "transformers.slanext_image_processor",
            source_path: "transformers/models/slanext/image_processing_slanext.py",
            category: MultimodalCategory::DocumentUnderstanding,
            profile: MultimodalProfile::FixedMask,
        },
        MultimodalPreset {
            class_name: "Siglip2ImageProcessor",
            model_type: "siglip2",
            recipe_id: "transformers.siglip2_image_processor",
            source_path: "transformers/models/siglip2/image_processing_siglip2.py",
            category: MultimodalCategory::VisionLanguage,
            profile: MultimodalProfile::AdaptivePatches,
        },
        MultimodalPreset {
            class_name: "SmolVLMImageProcessor",
            model_type: "smolvlm",
            recipe_id: "transformers.smolvlm_image_processor",
            source_path: "transformers/models/smolvlm/image_processing_smolvlm.py",
            category: MultimodalCategory::VisionLanguage,
            profile: MultimodalProfile::Tiled,
        },
        MultimodalPreset {
            class_name: "TextNetImageProcessor",
            model_type: "textnet",
            recipe_id: "transformers.textnet_image_processor",
            source_path: "transformers/models/textnet/image_processing_textnet.py",
            category: MultimodalCategory::DocumentUnderstanding,
            profile: MultimodalProfile::Fixed,
        },
        MultimodalPreset {
            class_name: "TvpImageProcessor",
            model_type: "tvp",
            recipe_id: "transformers.tvp_image_processor",
            source_path: "transformers/models/tvp/image_processing_tvp.py",
            category: MultimodalCategory::Video,
            profile: MultimodalProfile::Video,
        },
        MultimodalPreset {
            class_name: "UVDocImageProcessor",
            model_type: "uvdoc",
            recipe_id: "transformers.uvdoc_image_processor",
            source_path: "transformers/models/uvdoc/image_processing_uvdoc.py",
            category: MultimodalCategory::DocumentUnderstanding,
            profile: MultimodalProfile::UvDoc,
        },
        MultimodalPreset {
            class_name: "VideoLlama3ImageProcessor",
            model_type: "video_llama_3",
            recipe_id: "transformers.video_llama_3_image_processor",
            source_path: "transformers/models/video_llama_3/image_processing_video_llama_3.py",
            category: MultimodalCategory::Video,
            profile: MultimodalProfile::PatchGrid,
        },
        MultimodalPreset {
            class_name: "VideoLlavaImageProcessor",
            model_type: "video_llava",
            recipe_id: "transformers.video_llava_image_processor",
            source_path: "transformers/models/video_llava/image_processing_video_llava.py",
            category: MultimodalCategory::Video,
            profile: MultimodalProfile::Video,
        },
        MultimodalPreset {
            class_name: "ViltImageProcessor",
            model_type: "vilt",
            recipe_id: "transformers.vilt_image_processor",
            source_path: "transformers/models/vilt/image_processing_vilt.py",
            category: MultimodalCategory::VisionLanguage,
            profile: MultimodalProfile::FixedMask,
        }
    ]
}

/// Alternate upstream class names and the canonical class each one stands for.
pub open spec fn spec_multimodal_class_aliases() -> Seq<(&'static str, &'static str)> {
    seq![
        ("AriaImageProcessorPil", "AriaImageProcessor"),
        ("BlipImageProcessorPil", "BlipImageProcessor"),
        ("BridgeTowerImageProcessorPil", "BridgeTowerImageProcessor"),
        ("ChameleonImageProcessorPil", "ChameleonImageProcessor"),
        ("DeepseekOcr2ImageProcessorPil", "DeepseekOcr2ImageProcessor"),
        ("DeepseekVLHybridImageProcessorPil", "DeepseekVLHybridImageProcessor"),
        ("DeepseekVLImageProcessorPil", "DeepseekVLImageProcessor"),
        ("Ernie4_5_VLMoeImageProcessorPil", "Ernie4_5_VLMoeImageProcessor"),
        ("Ernie4_5_VL_MoeImageProcessor", "Ernie4_5_VLMoeImageProcessor"),
        ("Ernie4_5_VL_MoeImageProcessorPil", "Ernie4_5_VLMoeImageProcessor"),
        ("FuyuImageProcessorPil", "FuyuImageProcessor"),
        ("Gemma4ImageProcessorPil", "Gemma4ImageProcessor"),
        ("Glm46VImageProcessorPil", "Glm46VImageProcessor"),
        ("Glm4vImageProcessorPil", "Glm4vImageProcessor"),
        ("GlmImageImageProcessorPil", "GlmImageImageProcessor"),
        ("GlmgaImageProcessorPil", "GlmgaImageProcessor"),
        ("GotOcr2ImageProcessorPil", "GotOcr2ImageProcessor"),
        ("HunYuanVLImageProcessorPil", "HunYuanVLImageProcessor"),
        ("Idefics2ImageProcessorPil", "Idefics2ImageProcessor"),
        ("IdeficsImageProcessorPil", "IdeficsImageProcessor"),
        ("JanusImageProcessorPil", "JanusImageProcessor"),
        ("Kosmos2_5ImageProcessorPil", "Kosmos2_5ImageProcessor"),
        ("LayoutLMv2ImageProcessorPil", "LayoutLMv2ImageProcessor"),
        ("LayoutLMv3ImageProcessorPil", "LayoutLMv3ImageProcessor"),
        ("LlavaImageProcessorPil", "LlavaImageProcessor"),
        ("LlavaOnevisionImageProcessorPil", "LlavaOnevisionImageProcessor"),
        ("MiniCPMV4_6ImageProcessorPil", "MiniCPMV4_6ImageProcessor"),
        ("NougatImageProcessorPil", "NougatImageProcessor"),
        ("Ovis2ImageProcessorPil", "Ovis2ImageProcessor"),
        ("PPChart2TableImageProcessorPil", "PPChart2TableImageProcessor"),
        ("PaddleOCRVLImageProcessorPil", "PaddleOCRVLImageProcessor"),
        ("Pix2StructImageProcessorPil", "Pix2StructImageProcessor"),
        ("Siglip2ImageProcessorPil", "Siglip2ImageProcessor"),
        ("SmolVLMImageProcessorPil", "SmolVLMImageProcessor"),
        ("TextNetImageProcessorPil", "TextNetImageProcessor"),
        ("TvpImageProcessorPil", "TvpImageProcessor"),
        ("VideoLlama3ImageProcessorPil", "VideoLlama3ImageProcessor"),
        ("ViltImageProcessorPil", "ViltImageProcessor"),
    ]
}

/// Returns every compact vision-language, document, and video preset.
pub fn multimodal_presets() -> (r: &'static [MultimodalPreset])
    ensures
        r@ == spec_multimodal_presets(),
{
    let r: &'static [MultimodalPreset] = &[
        MultimodalPreset {
            class_name: "AriaImageProcessor",
            model_type: "aria",
            recipe_id: "transformers.aria_image_processor",
            source_path: "transformers/models/aria/image_processing_aria.py",
            category: MultimodalCategory::VisionLanguage,
            profile: MultimodalProfile::Tiled,
        },
        MultimodalPreset {
            class_name: "BlipImageProcessor",
            model_type: "blip",
            recipe_id: "transformers.blip_image_processor",
            source_path: "transformers/models/blip/image_processing_blip.py",
            category: MultimodalCategory::VisionLanguage,
            profile: MultimodalProfile::Fixed,
        },
        MultimodalPreset {
            class_name: "BridgeTowerImageProcessor",
            model_type: "bridgetower",
            recipe_id: "transformers.bridgetower_image_processor",
            source_path: "transformers/models/bridgetower/image_processing_bridgetower.py",
            category: MultimodalCategory::VisionLanguage,
            profile: MultimodalProfile::FixedMask,
        },
        MultimodalPreset {
            class_name: "ChameleonImageProcessor",
            model_type: "chameleon",
            recipe_id: "transformers.chameleon_image_processor",
            source_path: "transformers/models/chameleon/image_processing_chameleon.py",
            category: MultimodalCategory::VisionLanguage,
            profile: MultimodalProfile::Fixed,
        },
        MultimodalPreset {
            class_name: "Cohere2VisionImageProcessor",
            model_type: "cohere2_vision",
            recipe_id: "transformers.cohere2_vision_image_processor",
            source_path: "transformers/models/cohere2_vision/image_processing_cohere2_vision.py",
            category: MultimodalCategory::VisionLanguage,
            profile: MultimodalProfile::Tiled,
        },
        MultimodalPreset {
            class_name: "DeepseekOcr2ImageProcessor",
            model_type: "deepseek_ocr2",
            recipe_id: "transformers.deepseek_ocr2_image_processor",
            source_path: "transformers/models/deepseek_ocr2/image_processing_deepseek_ocr2.py",
            category: MultimodalCategory::DocumentUnderstanding,
            profile: MultimodalProfile::Tiled,
        },
        MultimodalPreset {
            class_name: "DeepseekVLHybridImageProcessor",
            model_type: "deepseek_vl_hybrid",
            recipe_id: "transformers.deepseek_vl_hybrid_image_processor",
            source_path: "transformers/models/deepseek_vl_hybrid/image_processing_deepseek_vl_hybrid.py",
            category: MultimodalCategory::VisionLanguage,
            profile: MultimodalProfile::Fixed,
        },
        MultimodalPreset {
            class_name: "DeepseekVLImageProcessor",
            model_type: "deepseek_vl",
            recipe_id: "transformers.deepseek_vl_image_processor",
            source_path: "transformers/models/deepseek_vl/image_processing_deepseek_vl.py",
            category: MultimodalCategory::VisionLanguage,
            profile: MultimodalProfile::Fixed,
        },
        MultimodalPreset {
            class_name: "Emu3ImageProcessor",
            model_type: "emu3",
            recipe_id: "transformers.emu3_image_processor",
            source_path: "transformers/models/emu3/image_processing_emu3.py",
            category: MultimodalCategory::VisionLanguage,
            profile: MultimodalProfile::FixedMask,
        },
        MultimodalPreset {
            class_name: "Ernie4_5_VLMoeImageProcessor",
            model_type: "ernie4_5_vl_moe",
            recipe_id: "transformers.ernie4_5_vl_moe_image_processor",
            source_path: "transformers/models/ernie4_5_vl_moe/image_processing_ernie4_5_vl_moe.py",
            category: MultimodalCategory::VisionLanguage,
            profile: MultimodalProfile::PatchGrid,
        },
        MultimodalPreset {
            class_name: "FuyuImageProcessor",
            model_type: "fuyu",
            recipe_id: "transformers.fuyu_image_processor",
            source_path: "transformers/models/fuyu/image_processing_fuyu.py",
            category: MultimodalCategory::VisionLanguage,
            profile: MultimodalProfile::Fuyu,
        },
        MultimodalPreset {
            class_name: "Gemma4ImageProcessor",
            model_type: "gemma4",
            recipe_id: "transformers.gemma4_image_processor",
            source_path: "transformers/models/gemma4/image_processing_gemma4.py",
            category: MultimodalCategory::VisionLanguage,
            profile: MultimodalProfile::Gemma4,
        },
        MultimodalPreset {
            class_name: "Gemma4UnifiedImageProcessor",
            model_type: "gemma4_unified",
            recipe_id: "transformers.gemma4_unified_image_processor",
            source_path: "transformers/models/gemma4_unified/image_processing_gemma4_unified.py",
            category: MultimodalCategory::VisionLanguage,
            profile: MultimodalProfile::Gemma4Unified,
        },
        MultimodalPreset {
            class_name: "Glm46VImageProcessor",
            model_type: "glm46v",
            recipe_id: "transformers.glm46v_image_processor",
            source_path: "transformers/models/glm46v/image_processing_glm46v.py",
            category: MultimodalCategory::VisionLanguage,
            profile: MultimodalProfile::PatchGrid,
        },
        MultimodalPreset {
            class_name: "Glm4vImageProcessor",
            model_type: "glm4v",
            recipe_id: "transformers.glm4v_image_processor",
            source_path: "transformers/models/glm4v/image_processing_glm4v.py",
            category: MultimodalCategory::VisionLanguage,
            profile: MultimodalProfile::PatchGrid,
        },
        MultimodalPreset {
            class_name: "GlmImageImageProcessor",
            model_type: "glm_image",
            recipe_id: "transformers.glm_image_image_processor",
            source_path: "transformers/models/glm_image/image_processing_glm_image.py",
            category: MultimodalCategory::VisionLanguage,
            profile: MultimodalProfile::PatchGrid,
        },
        MultimodalPreset {
            class_name: "GlmgaImageProcessor",
            model_type: "glmga",
            recipe_id: "transformers.glmga_image_processor",
            source_path: "transformers/models/glmga/image_processing_glmga.py",
            category: MultimodalCategory::VisionLanguage,
            profile: MultimodalProfile::PatchGrid,
        },
        MultimodalPreset {
            class_name: "GotOcr2ImageProcessor",
            model_type: "got_ocr2",
            recipe_id: "transformers.got_ocr2_image_processor",
            source_path: "transformers/models/got_ocr2/image_processing_got_ocr2.py",
            category: MultimodalCategory::DocumentUnderstanding,
            profile: MultimodalProfile::Tiled,
        },
        MultimodalPreset {
            class_name: "HunYuanVLImageProcessor",
            model_type: "hunyuan_vl",
            recipe_id: "transformers.hunyuan_vl_image_processor",
            source_path: "transformers/models/hunyuan_vl/image_processing_hunyuan_vl.py",
            category: MultimodalCategory::VisionLanguage,
            profile: MultimodalProfile::PatchGrid,
        },
        MultimodalPreset {
            class_name: "Idefics2ImageProcessor",
            model_type: "idefics2",
            recipe_id: "transformers.idefics2_image_processor",
            source_path: "transformers/models/idefics2/image_processing_idefics2.py",
            category: MultimodalCategory::VisionLanguage,
            profile: MultimodalProfile::FixedMask,
        },
        MultimodalPreset {
            class_name: "IdeficsImageProcessor",
            model_type: "idefics",
            recipe_id: "transformers.idefics_image_processor",
            source_path: "transformers/models/idefics/image_processing_idefics.py",
            category: MultimodalCategory::VisionLanguage,
            profile: MultimodalProfile::Fixed,
        },
        MultimodalPreset {
            class_name: "JanusImageProcessor",
            model_type: "janus",
            recipe_id: "transformers.janus_image_processor",
            source_path: "transformers/models/janus/image_processing_janus.py",
            category: MultimodalCategory::VisionLanguage,
            profile: MultimodalProfile::Fixed,
        },
        MultimodalPreset {
            class_name: "Kimi_K25ImageProcessor",
            model_type: "kimi_k25",
            recipe_id: "transformers.kimi_k25_image_processor",
            source_path: "transformers/models/kimi_k25/image_processing_kimi_k25.py",
            category: MultimodalCategory::VisionLanguage,
            profile: MultimodalProfile::PatchFrames,
        },
        MultimodalPreset {
            class_name: "Kosmos2_5ImageProcessor",
            model_type: "kosmos2_5",
            recipe_id: "transformers.kosmos2_5_image_processor",
            source_path: "transformers/models/kosmos2_5/image_processing_kosmos2_5.py",
            category: MultimodalCategory::DocumentUnderstanding,
            profile: MultimodalProfile::AdaptivePatches,
        },
        MultimodalPreset {
            class_name: "LayoutLMv2ImageProcessor",
            model_type: "layoutlmv2",
            recipe_id: "transformers.layoutlmv2_image_processor",
            source_path: "transformers/models/layoutlmv2/image_processing_layoutlmv2.py",
            category: MultimodalCategory::DocumentUnderstanding,
            profile: MultimodalProfile::Fixed,
        },
        MultimodalPreset {
            class_name: "LayoutLMv3ImageProcessor",
            model_type: "layoutlmv3",
            recipe_id: "transformers.layoutlmv3_image_processor",
            source_path: "transformers/models/layoutlmv3/image_processing_layoutlmv3.py",
            category: MultimodalCategory::DocumentUnderstanding,
            profile: MultimodalProfile::Fixed,
        },
        MultimodalPreset {
            class_name: "Lfm2VlImageProcessor",
            model_type: "lfm2_vl",
            recipe_id: "transformers.lfm2_vl_image_processor",
            source_path: "transformers/models/lfm2_vl/image_processing_lfm2_vl.py",
            category: MultimodalCategory::VisionLanguage,
            profile: MultimodalProfile::AdaptivePatches,
        },
        MultimodalPreset {
            class_name: "Llama4ImageProcessor",
            model_type: "llama4",
            recipe_id: "transformers.llama4_image_processor",
            source_path: "transformers/models/llama4/image_processing_llama4.py",
            category: MultimodalCategory::VisionLanguage,
            profile: MultimodalProfile::Tiled,
        },
        MultimodalPreset {
            class_name: "LlavaImageProcessor",
            model_type: "llava",
            recipe_id: "transformers.llava_image_processor",
            source_path: "transformers/models/llava/image_processing_llava.py",
            category: MultimodalCategory::VisionLanguage,
            profile: MultimodalProfile::Fixed,
        },
        MultimodalPreset {
            class_name: "LlavaOnevisionImageProcessor",
            model_type: "llava_onevision",
            recipe_id: "transformers.llava_onevision_image_processor",
            source_path: "transformers/models/llava_onevision/image_processing_llava_onevision.py",
            category: MultimodalCategory::VisionLanguage,
            profile: MultimodalProfile::Tiled,
        },
        MultimodalPreset {
            class_name: "MiniCPMV4_6ImageProcessor",
            model_type: "minicpmv4_6",
            recipe_id: "transformers.minicpmv4_6_image_processor",
            source_path: "transformers/models/minicpmv4_6/image_processing_minicpmv4_6.py",
            category: MultimodalCategory::VisionLanguage,
            profile: MultimodalProfile::MiniCpm,
        },
        MultimodalPreset {
            class_name: "MiniMaxM3VLImageProcessor",
            model_type: "minimax_m3_vl",
            recipe_id: "transformers.minimax_m3_vl_image_processor",
            source_path: "transformers/models/minimax_m3_vl/image_processing_minimax_m3_vl.py",
            category: MultimodalCategory::VisionLanguage,
            profile: MultimodalProfile::PatchGrid,
        },
        MultimodalPreset {
            class_name: "NougatImageProcessor",
            model_type: "nougat",
            recipe_id: "transformers.nougat_image_processor",
            source_path: "transformers/models/nougat/image_processing_nougat.py",
            category: MultimodalCategory::DocumentUnderstanding,
            profile: MultimodalProfile::Fixed,
        },
        MultimodalPreset {
            class_name: "Ovis2ImageProcessor",
            model_type: "ovis2",
            recipe_id: "transformers.ovis2_image_processor",
            source_path: "transformers/models/ovis2/image_processing_ovis2.py",
            category: MultimodalCategory::VisionLanguage,
            profile: MultimodalProfile::Tiled,
        },
        MultimodalPreset {
            class_name: "PI0ImageProcessor",
            model_type: "pi0",
            recipe_id: "transformers.pi0_image_processor",
            source_path: "transformers/models/pi0/image_processing_pi0.py",
            category: MultimodalCategory::VisionLanguage,
            profile: MultimodalProfile::FixedMask,
        },
        MultimodalPreset {
            class_name: "PPChart2TableImageProcessor",
            model_type: "pp_chart2table",
            recipe_id: "transformers.pp_chart2table_image_processor",
            source_path: "transformers/models/pp_chart2table/image_processing_pp_chart2table.py",
            category: MultimodalCategory::DocumentUnderstanding,
            profile: MultimodalProfile::Fixed,
        },
        MultimodalPreset {
            class_name: "PPFormulaNetImageProcessor",
            model_type: "pp_formulanet",
            recipe_id: "transformers.pp_formulanet_image_processor",
            source_path: "transformers/models/pp_formulanet/image_processing_pp_formulanet.py",
            category: MultimodalCategory::DocumentUnderstanding,
            profile: MultimodalProfile::Fixed,
        },
        MultimodalPreset {
            class_name: "PPOCRV5ServerRecImageProcessor",
            model_type: "pp_ocrv5_server_rec",
            recipe_id: "transformers.pp_ocrv5_server_rec_image_processor",
            source_path: "transformers/models/pp_ocrv5_server_rec/image_processing_pp_ocrv5_server_rec.py",
            category: MultimodalCategory::DocumentUnderstanding,
            profile: MultimodalProfile::Fixed,
        },
        MultimodalPreset {
            class_name: "PPOCRV6SmallRecImageProcessor",
            model_type: "pp_ocrv6_small_rec",
            recipe_id: "transformers.pp_ocrv6_small_rec_image_processor",
            source_path: "transformers/models/pp_ocrv6_small_rec/image_processing_pp_ocrv6_small_rec.py",
            category: MultimodalCategory::DocumentUnderstanding,
            profile: MultimodalProfile::Fixed,
        },
        MultimodalPreset {
            class_name: "PaddleOCRVLImageProcessor",
            model_type: "paddleocr_vl",
            recipe_id: "transformers.paddleocr_vl_image_processor",
            source_path: "transformers/models/paddleocr_vl/image_processing_paddleocr_vl.py",
            category: MultimodalCategory::DocumentUnderstanding,
            profile: MultimodalProfile::PatchFrames,
        },
        MultimodalPreset {
            class_name: "PerceptionLMImageProcessor",
            model_type: "perception_lm",
            recipe_id: "transformers.perception_lm_image_processor",
            source_path: "transformers/models/perception_lm/image_processing_perception_lm.py",
            category: MultimodalCategory::VisionLanguage,
            profile: MultimodalProfile::Tiled,
        },
        MultimodalPreset {
            class_name: "Phi4MultimodalImageProcessor",
            model_type: "phi4_multimodal",
            recipe_id: "transformers.phi4_multimodal_image_processor",
            source_path: "transformers/models/phi4_multimodal/image_processing_phi4_multimodal.py",
            category: MultimodalCategory::VisionLanguage,
            profile: MultimodalProfile::Phi4,
        },
        MultimodalPreset {
            class_name: "Pix2StructImageProcessor",
            model_type: "pix2struct",
            recipe_id: "transformers.pix2struct_image_processor",
            source_path: "transformers/models/pix2struct/image_processing_pix2struct.py",
            category: MultimodalCategory::DocumentUnderstanding,
            profile: MultimodalProfile::AdaptivePatches,
        },
        MultimodalPreset {
            class_name: "SLANeXtImageProcessor",
            model_type: "slanext",
            recipe_id: "transformers.slanext_image_processor",
            source_path: "transformers/models/slanext/image_processing_slanext.py",
            category: MultimodalCategory::DocumentUnderstanding,
            profile: MultimodalProfile::FixedMask,
        },
        MultimodalPreset {
            class_name: "Siglip2ImageProcessor",
            model_type: "siglip2",
            recipe_id: "transformers.siglip2_image_processor",
            source_path: "transformers/models/siglip2/image_processing_siglip2.py",
            category: MultimodalCategory::VisionLanguage,
            profile: MultimodalProfile::AdaptivePatches,
        },
        MultimodalPreset {
            class_name: "SmolVLMImageProcessor",
            model_type: "smolvlm",
            recipe_id: "transformers.smolvlm_image_processor",
            source_path: "transformers/models/smolvlm/image_processing_smolvlm.py",
            category: MultimodalCategory::VisionLanguage,
            profile: MultimodalProfile::Tiled,
        },
        MultimodalPreset {
            class_name: "TextNetImageProcessor",
            model_type: "textnet",
            recipe_id: "transformers.textnet_image_processor",
            source_path: "transformers/models/textnet/image_processing_textnet.py",
            category: MultimodalCategory::DocumentUnderstanding,
            profile: MultimodalProfile::Fixed,
        },
        MultimodalPreset {
            class_name: "TvpImageProcessor",
            model_type: "tvp",
            recipe_id: "transformers.tvp_image_processor",
            source_path: "transformers/models/tvp/image_processing_tvp.py",
            category: MultimodalCategory::Video,
            profile: MultimodalProfile::Video,
        },
        MultimodalPreset {
            class_name: "UVDocImageProcessor",
            model_type: "uvdoc",
            recipe_id: "transformers.uvdoc_image_processor",
            source_path: "transformers/models/uvdoc/image_processing_uvdoc.py",
            category: MultimodalCategory::DocumentUnderstanding,
            profile: MultimodalProfile::UvDoc,
        },
        MultimodalPreset {
            class_name: "VideoLlama3ImageProcessor",
            model_type: "video_llama_3",
            recipe_id: "transformers.video_llama_3_image_processor",
            source_path: "transformers/models/video_llama_3/image_processing_video_llama_3.py",
            category: MultimodalCategory::Video,
            profile: MultimodalProfile::PatchGrid,
        },
        MultimodalPreset {
            class_name: "VideoLlavaImageProcessor",
            model_type: "video_llava",
            recipe_id: "transformers.video_llava_image_processor",
            source_path: "transformers/models/video_llava/image_processing_video_llava.py",
            category: MultimodalCategory::Video,
            profile: MultimodalProfile::Video,
        },
        MultimodalPreset {
            class_name: "ViltImageProcessor",
            model_type: "vilt",
            recipe_id: "transformers.vilt_image_processor",
            source_path: "transformers/models/vilt/image_processing_vilt.py",
            category: MultimodalCategory::VisionLanguage,
            profile: MultimodalProfile::FixedMask,
        }
    ];
    assert(r@ =~= spec_multimodal_presets());
    r
}

/// Returns the alternate upstream class names accepted by [`multimodal_preset`].
pub fn multimodal_class_aliases() -> (r: &'static [(&'static str, &'static str)])
    ensures
        r@ == spec_multimodal_class_aliases(),
{
    let r: &'static [(&'static str, &'static str)] = &[
        ("AriaImageProcessorPil", "AriaImageProcessor"),
        ("BlipImageProcessorPil", "BlipImageProcessor"),
        ("BridgeTowerImageProcessorPil", "BridgeTowerImageProcessor"),
        ("ChameleonImageProcessorPil", "ChameleonImageProcessor"),
        ("DeepseekOcr2ImageProcessorPil", "DeepseekOcr2ImageProcessor"),
        ("DeepseekVLHybridImageProcessorPil", "DeepseekVLHybridImageProcessor"),
        ("DeepseekVLImageProcessorPil", "DeepseekVLImageProcessor"),
        ("Ernie4_5_VLMoeImageProcessorPil", "Ernie4_5_VLMoeImageProcessor"),
        ("Ernie4_5_VL_MoeImageProcessor", "Ernie4_5_VLMoeImageProcessor"),
        ("Ernie4_5_VL_MoeImageProcessorPil", "Ernie4_5_VLMoeImageProcessor"),
        ("FuyuImageProcessorPil", "FuyuImageProcessor"),
        ("Gemma4ImageProcessorPil", "Gemma4ImageProcessor"),
        ("Glm46VImageProcessorPil", "Glm46VImageProcessor"),
        ("Glm4vImageProcessorPil", "Glm4vImageProcessor"),
        ("GlmImageImageProcessorPil", "GlmImageImageProcessor"),
        ("GlmgaImageProcessorPil", "GlmgaImageProcessor"),
        ("GotOcr2ImageProcessorPil", "GotOcr2ImageProcessor"),
        ("HunYuanVLImageProcessorPil", "HunYuanVLImageProcessor"),
        ("Idefics2ImageProcessorPil", "Idefics2ImageProcessor"),
        ("IdeficsImageProcessorPil", "IdeficsImageProcessor"),
        ("JanusImageProcessorPil", "JanusImageProcessor"),
        ("Kosmos2_5ImageProcessorPil", "Kosmos2_5ImageProcessor"),
        ("LayoutLMv2ImageProcessorPil", "LayoutLMv2ImageProcessor"),
        ("LayoutLMv3ImageProcessorPil", "LayoutLMv3ImageProcessor"),
        ("LlavaImageProcessorPil", "LlavaImageProcessor"),
        ("LlavaOnevisionImageProcessorPil", "LlavaOnevisionImageProcessor"),
        ("MiniCPMV4_6ImageProcessorPil", "MiniCPMV4_6ImageProcessor"),
        ("NougatImageProcessorPil", "NougatImageProcessor"),
        ("Ovis2ImageProcessorPil", "Ovis2ImageProcessor"),
        ("PPChart2TableImageProcessorPil", "PPChart2TableImageProcessor"),
        ("PaddleOCRVLImageProcessorPil", "PaddleOCRVLImageProcessor"),
        ("Pix2StructImageProcessorPil", "Pix2StructImageProcessor"),
        ("Siglip2ImageProcessorPil", "Siglip2ImageProcessor"),
        ("SmolVLMImageProcessorPil", "SmolVLMImageProcessor"),
        ("TextNetImageProcessorPil", "TextNetImageProcessor"),
        ("TvpImageProcessorPil", "TvpImageProcessor"),
        ("VideoLlama3ImageProcessorPil", "VideoLlama3ImageProcessor"),
        ("ViltImageProcessorPil", "ViltImageProcessor"),
    ];
    assert(r@ =~= spec_multimodal_class_aliases());
    r
}

/// The first alias entry, at index `start` or later, whose alias is `name`.
pub open spec fn alias_entry_from(name: Seq<char>, start: int) -> Option<(&'static str, &'static str)>
    decreases spec_multimodal_class_aliases().len() - start,
{
    if start < 0 || start >= spec_multimodal_class_aliases().len() {
        None
    } else if spec_multimodal_class_aliases()[start].0@ == name {
        Some(spec_multimodal_class_aliases()[start])
    } else {
        alias_entry_from(name, start + 1)
    }
}

/// The canonical class a requested name stands for: the target of its first
/// alias entry, or the name itself.
pub open spec fn canonical_class_name(name: Seq<char>) -> Seq<char> {
    match alias_entry_from(name, 0) {
        Some(entry) => entry.1@,
        None => name,
    }
}

/// The first preset, at index `start` or later, whose class name is `class_name`.
pub open spec fn preset_from(class_name: Seq<char>, start: int) -> Option<MultimodalPreset>
    decreases spec_multimodal_presets().len() - start,
{
    if start < 0 || start >= spec_multimodal_presets().len() {
        None
    } else if spec_multimodal_presets()[start].spec_class_name()@ == class_name {
        Some(spec_multimodal_presets()[start])
    } else {
        preset_from(class_name, start + 1)
    }
}

/// The preset a canonical class name or alias resolves to.
pub open spec fn spec_multimodal_preset(name: Seq<char>) -> Option<MultimodalPreset> {
    preset_from(canonical_class_name(name), 0)
}

/// Finds the first alias entry whose alias is `class_name`.
fn find_alias_entry(class_name: &str) -> (r: Option<(&'static str, &'static str)>)
    ensures
        r == alias_entry_from(class_name@, 0),
{
    let aliases = multimodal_class_aliases();
    let mut i: usize = 0;
    while i < aliases.len()
        invariant
            aliases@ == spec_multimodal_class_aliases(),
            i <= aliases@.len(),
            alias_entry_from(class_name@, 0) == alias_entry_from(class_name@, i as int),
        decreases aliases@.len() - i,
    {
        let entry = aliases[i];
        if str_equal(entry.0, class_name) {
            return Some(entry);
        }
        i = i + 1;
    }
    None
}

/// Finds the first catalog preset whose class name is `class_name`.
fn find_preset(class_name: &str) -> (r: Option<&'static MultimodalPreset>)
    ensures
        match r {
            Some(p) => preset_from(class_name@, 0) == Some(*p),
            None => preset_from(class_name@, 0) is None,
        },
{
    let presets = multimodal_presets();
    let mut i: usize = 0;
    while i < presets.len()
        invariant
            presets@ == spec_multimodal_presets(),
            i <= presets@.len(),
            preset_from(class_name@, 0) == preset_from(class_name@, i as int),
        decreases presets@.len() - i,
    {
        let preset: &'static MultimodalPreset = &presets[i];
        if str_equal(preset.class_name, class_name) {
            return Some(preset);
        }
        i = i + 1;
    }
    None
}

/// Returns the audited preset for `class_name`, resolving aliases first.
pub fn multimodal_preset(class_name: &str) -> (r: Option<&'static MultimodalPreset>)
    ensures
        match r {
            Some(p) => spec_multimodal_preset(class_name@) == Some(*p),
            None => spec_multimodal_preset(class_name@) is None,
        },
{
    match find_alias_entry(class_name) {
        Some(entry) => find_preset(entry.1),
        None => find_preset(class_name),
    }
}

/// The alias entry found for `name`, if any, names `name` itself.
pub proof fn lemma_alias_entry_names(name: Seq<char>, start: int)
    ensures
        alias_entry_from(name, start) matches Some(entry) ==> entry.0@ == name,
    decreases spec_multimodal_class_aliases().len() - start,
{
    if 0 <= start < spec_multimodal_class_aliases().len() {
        lemma_alias_entry_names(name, start + 1);
    }
}

/// The preset found for `class_name`, if any, carries that class name.
pub proof fn lemma_preset_names(class_name: Seq<char>, start: int)
    ensures
        preset_from(class_name, start) matches Some(p) ==> p.spec_class_name()@ == class_name,
    decreases spec_multimodal_presets().len() - start,
{
    if 0 <= start < spec_multimodal_presets().len() {
        lemma_preset_names(class_name, start + 1);
    }
}

/// The recipe identifier of catalog entry `i` is formed from its model type.
proof fn lemma_catalog_recipe_id(i: int)
    requires
        0 <= i < spec_multimodal_presets().len(),
    ensures
        spec_multimodal_presets()[i].spec_recipe_id()@ == spec_expected_recipe_id(spec_multimodal_presets()[i].spec_model_type()@),
{
    if 0 <= i < 13 {
        lemma_catalog_recipe_ids_0(i);
    }
    if 13 <= i < 26 {
        lemma_catalog_recipe_ids_1(i);
    }
    if 26 <= i < 39 {
        lemma_catalog_recipe_ids_2(i);
    }
    if 39 <= i < 52 {
        lemma_catalog_recipe_ids_3(i);
    }
}

proof fn lemma_catalog_recipe_ids_0(i: int)
    requires
        0 <= i < 13,
        i < spec_multimodal_presets().len(),
    ensures
        spec_multimodal_presets()[i].spec_recipe_id()@ == spec_expected_recipe_id(spec_multimodal_presets()[i].spec_model_type()@),
{
    let presets = spec_multimodal_presets();
    reveal_strlit("transformers.");
    reveal_strlit("_image_processor");
    if i == 0 {
        reveal_strlit("aria");
        reveal_strlit("transformers.aria_image_processor");
        assert(presets[0].spec_recipe_id()@ =~= spec_expected_recipe_id(presets[0].spec_model_type()@));
    } else if i == 1 {
        reveal_strlit("blip");
        reveal_strlit("transformers.blip_image_processor");
        assert(presets[1].spec_recipe_id()@ =~= spec_expected_recipe_id(presets[1].spec_model_type()@));
    } else if i == 2 {
        reveal_strlit("bridgetower");
        reveal_strlit("transformers.bridgetower_image_processor");
        assert(presets[2].spec_recipe_id()@ =~= spec_expected_recipe_id(presets[2].spec_model_type()@));
    } else if i == 3 {
        reveal_strlit("chameleon");
        reveal_strlit("transformers.chameleon_image_processor");
        assert(presets[3].spec_recipe_id()@ =~= spec_expected_recipe_id(presets[3].spec_model_type()@));
    } else if i == 4 {
        reveal_strlit("cohere2_vision");
        reveal_strlit("transformers.cohere2_vision_image_processor");
        assert(presets[4].spec_recipe_id()@ =~= spec_expected_recipe_id(presets[4].spec_model_type()@));
    } else if i == 5 {
        reveal_strlit("deepseek_ocr2");
        reveal_strlit("transformers.deepseek_ocr2_image_processor");
        assert(presets[5].spec_recipe_id()@ =~= spec_expected_recipe_id(presets[5].spec_model_type()@));
    } else if i == 6 {
        reveal_strlit("deepseek_vl_hybrid");
        reveal_strlit("transformers.deepseek_vl_hybrid_image_processor");
        assert(presets[6].spec_recipe_id()@ =~= spec_expected_recipe_id(presets[6].spec_model_type()@));
    } else if i == 7 {
        reveal_strlit("deepseek_vl");
        reveal_strlit("transformers.deepseek_vl_image_processor");
        assert(presets[7].spec_recipe_id()@ =~= spec_expected_recipe_id(presets[7].spec_model_type()@));
    } else if i == 8 {
        reveal_strlit("emu3");
        reveal_strlit("transformers.emu3_image_processor");
        assert(presets[8].spec_recipe_id()@ =~= spec_expected_recipe_id(presets[8].spec_model_type()@));
    } else if i == 9 {
        reveal_strlit("ernie4_5_vl_moe");
        reveal_strlit("transformers.ernie4_5_vl_moe_image_processor");
        assert(presets[9].spec_recipe_id()@ =~= spec_expected_recipe_id(presets[9].spec_model_type()@));
    } else if i == 10 {
        reveal_strlit("fuyu");
        reveal_strlit("transformers.fuyu_image_processor");
        assert(presets[10].spec_recipe_id()@ =~= spec_expected_recipe_id(presets[10].spec_model_type()@));
    } else if i == 11 {
        reveal_strlit("gemma4");
        reveal_strlit("transformers.gemma4_image_processor");
        assert(presets[11].spec_recipe_id()@ =~= spec_expected_recipe_id(presets[11].spec_model_type()@));
    } else if i == 12 {
        reveal_strlit("gemma4_unified");
        reveal_strlit("transformers.gemma4_unified_image_processor");
        assert(presets[12].spec_recipe_id()@ =~= spec_expected_recipe_id(presets[12].spec_model_type()@));
    }
}

proof fn lemma_catalog_recipe_ids_1(i: int)
    requires
        13 <= i < 26,
        i < spec_multimodal_presets().len(),
    ensures
        spec_multimodal_presets()[i].spec_recipe_id()@ == spec_expected_recipe_id(spec_multimodal_presets()[i].spec_model_type()@),
{
    let presets = spec_multimodal_presets();
    reveal_strlit("transformers.");
    reveal_strlit("_image_processor");
    if i == 13 {
        reveal_strlit("glm46v");
        reveal_strlit("transformers.glm46v_image_processor");
        assert(presets[13].spec_recipe_id()@ =~= spec_expected_recipe_id(presets[13].spec_model_type()@));
    } else if i == 14 {
        reveal_strlit("glm4v");
        reveal_strlit("transformers.glm4v_image_processor");
        assert(presets[14].spec_recipe_id()@ =~= spec_expected_recipe_id(presets[14].spec_model_type()@));
    } else if i == 15 {
        reveal_strlit("glm_image");
        reveal_strlit("transformers.glm_image_image_processor");
        assert(presets[15].spec_recipe_id()@ =~= spec_expected_recipe_id(presets[15].spec_model_type()@));
    } else if i == 16 {
        reveal_strlit("glmga");
        reveal_strlit("transformers.glmga_image_processor");
        assert(presets[16].spec_recipe_id()@ =~= spec_expected_recipe_id(presets[16].spec_model_type()@));
    } else if i == 17 {
        reveal_strlit("got_ocr2");
        reveal_strlit("transformers.got_ocr2_image_processor");
        assert(presets[17].spec_recipe_id()@ =~= spec_expected_recipe_id(presets[17].spec_model_type()@));
    } else if i == 18 {
        reveal_strlit("hunyuan_vl");
        reveal_strlit("transformers.hunyuan_vl_image_processor");
        assert(presets[18].spec_recipe_id()@ =~= spec_expected_recipe_id(presets[18].spec_model_type()@));
    } else if i == 19 {
        reveal_strlit("idefics2");
        reveal_strlit("transformers.idefics2_image_processor");
        assert(presets[19].spec_recipe_id()@ =~= spec_expected_recipe_id(presets[19].spec_model_type()@));
    } else if i == 20 {
        reveal_strlit("idefics");
        reveal_strlit("transformers.idefics_image_processor");
        assert(presets[20].spec_recipe_id()@ =~= spec_expected_recipe_id(presets[20].spec_model_type()@));
    } else if i == 21 {
        reveal_strlit("janus");
        reveal_strlit("transformers.janus_image_processor");
        assert(presets[21].spec_recipe_id()@ =~= spec_expected_recipe_id(presets[21].spec_model_type()@));
    } else if i == 22 {
        reveal_strlit("kimi_k25");
        reveal_strlit("transformers.kimi_k25_image_processor");
        assert(presets[22].spec_recipe_id()@ =~= spec_expected_recipe_id(presets[22].spec_model_type()@));
    } else if i == 23 {
        reveal_strlit("kosmos2_5");
        reveal_strlit("transformers.kosmos2_5_image_processor");
        assert(presets[23].spec_recipe_id()@ =~= spec_expected_recipe_id(presets[23].spec_model_type()@));
    } else if i == 24 {
        reveal_strlit("layoutlmv2");
        reveal_strlit("transformers.layoutlmv2_image_processor");
        assert(presets[24].spec_recipe_id()@ =~= spec_expected_recipe_id(presets[24].spec_model_type()@));
    } else if i == 25 {
        reveal_strlit("layoutlmv3");
        reveal_strlit("transformers.layoutlmv3_image_processor");
        assert(presets[25].spec_recipe_id()@ =~= spec_expected_recipe_id(presets[25].spec_model_type()@));
    }
}

proof fn lemma_catalog_recipe_ids_2(i: int)
    requires
        26 <= i < 39,
        i < spec_multimodal_presets().len(),
    ensures
        spec_multimodal_presets()[i].spec_recipe_id()@ == spec_expected_recipe_id(spec_multimodal_presets()[i].spec_model_type()@),
{
    let presets = spec_multimodal_presets();
    reveal_strlit("transformers.");
    reveal_strlit("_image_processor");
    if i == 26 {
        reveal_strlit("lfm2_vl");
        reveal_strlit("transformers.lfm2_vl_image_processor");
        assert(presets[26].spec_recipe_id()@ =~= spec_expected_recipe_id(presets[26].spec_model_type()@));
    } else if i == 27 {
        reveal_strlit("llama4");
        reveal_strlit("transformers.llama4_image_processor");
        assert(presets[27].spec_recipe_id()@ =~= spec_expected_recipe_id(presets[27].spec_model_type()@));
    } else if i == 28 {
        reveal_strlit("llava");
        reveal_strlit("transformers.llava_image_processor");
        assert(presets[28].spec_recipe_id()@ =~= spec_expected_recipe_id(presets[28].spec_model_type()@));
    } else if i == 29 {
        reveal_strlit("llava_onevision");
        reveal_strlit("transformers.llava_onevision_image_processor");
        assert(presets[29].spec_recipe_id()@ =~= spec_expected_recipe_id(presets[29].spec_model_type()@));
    } else if i == 30 {
        reveal_strlit("minicpmv4_6");
        reveal_strlit("transformers.minicpmv4_6_image_processor");
        assert(presets[30].spec_recipe_id()@ =~= spec_expected_recipe_id(presets[30].spec_model_type()@));
    } else if i == 31 {
        reveal_strlit("minimax_m3_vl");
        reveal_strlit("transformers.minimax_m3_vl_image_processor");
        assert(presets[31].spec_recipe_id()@ =~= spec_expected_recipe_id(presets[31].spec_model_type()@));
    } else if i == 32 {
        reveal_strlit("nougat");
        reveal_strlit("transformers.nougat_image_processor");
        assert(presets[32].spec_recipe_id()@ =~= spec_expected_recipe_id(presets[32].spec_model_type()@));
    } else if i == 33 {
        reveal_strlit("ovis2");
        reveal_strlit("transformers.ovis2_image_processor");
        assert(presets[33].spec_recipe_id()@ =~= spec_expected_recipe_id(presets[33].spec_model_type()@));
    } else if i == 34 {
        reveal_strlit("pi0");
        reveal_strlit("transformers.pi0_image_processor");
        assert(presets[34].spec_recipe_id()@ =~= spec_expected_recipe_id(presets[34].spec_model_type()@));
    } else if i == 35 {
        reveal_strlit("pp_chart2table");
        reveal_strlit("transformers.pp_chart2table_image_processor");
        assert(presets[35].spec_recipe_id()@ =~= spec_expected_recipe_id(presets[35].spec_model_type()@));
    } else if i == 36 {
        reveal_strlit("pp_formulanet");
        reveal_strlit("transformers.pp_formulanet_image_processor");
        assert(presets[36].spec_recipe_id()@ =~= spec_expected_recipe_id(presets[36].spec_model_type()@));
    } else if i == 37 {
        reveal_strlit("pp_ocrv5_server_rec");
        reveal_strlit("transformers.pp_ocrv5_server_rec_image_processor");
        assert(presets[37].spec_recipe_id()@ =~= spec_expected_recipe_id(presets[37].spec_model_type()@));
    } else if i == 38 {
        reveal_strlit("pp_ocrv6_small_rec");
        reveal_strlit("transformers.pp_ocrv6_small_rec_image_processor");
        assert(presets[38].spec_recipe_id()@ =~= spec_expected_recipe_id(presets[38].spec_model_type()@));
    }
}

proof fn lemma_catalog_recipe_ids_3(i: int)
    requires
        39 <= i < 52,
        i < spec_multimodal_presets().len(),
    ensures
        spec_multimodal_presets()[i].spec_recipe_id()@ == spec_expected_recipe_id(spec_multimodal_presets()[i].spec_model_type()@),
{
    let presets = spec_multimodal_presets();
    reveal_strlit("transformers.");
    reveal_strlit("_image_processor");
    if i == 39 {
        reveal_strlit("paddleocr_vl");
        reveal_strlit("transformers.paddleocr_vl_image_processor");
        assert(presets[39].spec_recipe_id()@ =~= spec_expected_recipe_id(presets[39].spec_model_type()@));
    } else if i == 40 {
        reveal_strlit("perception_lm");
        reveal_strlit("transformers.perception_lm_image_processor");
        assert(presets[40].spec_recipe_id()@ =~= spec_expected_recipe_id(presets[40].spec_model_type()@));
    } else if i == 41 {
        reveal_strlit("phi4_multimodal");
        reveal_strlit("transformers.phi4_multimodal_image_processor");
        assert(presets[41].spec_recipe_id()@ =~= spec_expected_recipe_id(presets[41].spec_model_type()@));
    } else if i == 42 {
        reveal_strlit("pix2struct");
        reveal_strlit("transformers.pix2struct_image_processor");
        assert(presets[42].spec_recipe_id()@ =~= spec_expected_recipe_id(presets[42].spec_model_type()@));
    } else if i == 43 {
        reveal_strlit("slanext");
        reveal_strlit("transformers.slanext_image_processor");
        assert(presets[43].spec_recipe_id()@ =~= spec_expected_recipe_id(presets[43].spec_model_type()@));
    } else if i == 44 {
        reveal_strlit("siglip2");
        reveal_strlit("transformers.siglip2_image_processor");
        assert(presets[44].spec_recipe_id()@ =~= spec_expected_recipe_id(presets[44].spec_model_type()@));
    } else if i == 45 {
        reveal_strlit("smolvlm");
        reveal_strlit("transformers.smolvlm_image_processor");
        assert(presets[45].spec_recipe_id()@ =~= spec_expected_recipe_id(presets[45].spec_model_type()@));
    } else if i == 46 {
        reveal_strlit("textnet");
        reveal_strlit("transformers.textnet_image_processor");
        assert(presets[46].spec_recipe_id()@ =~= spec_expected_recipe_id(presets[46].spec_model_type()@));
    } else if i == 47 {
        reveal_strlit("tvp");
        reveal_strlit("transformers.tvp_image_processor");
        assert(presets[47].spec_recipe_id()@ =~= spec_expected_recipe_id(presets[47].spec_model_type()@));
    } else if i == 48 {
        reveal_strlit("uvdoc");
        reveal_strlit("transformers.uvdoc_image_processor");
        assert(presets[48].spec_recipe_id()@ =~= spec_expected_recipe_id(presets[48].spec_model_type()@));
    } else if i == 49 {
        reveal_strlit("video_llama_3");
        reveal_strlit("transformers.video_llama_3_image_processor");
        assert(presets[49].spec_recipe_id()@ =~= spec_expected_recipe_id(presets[49].spec_model_type()@));
    } else if i == 50 {
        reveal_strlit("video_llava");
        reveal_strlit("transformers.video_llava_image_processor");
        assert(presets[50].spec_recipe_id()@ =~= spec_expected_recipe_id(presets[50].spec_model_type()@));
    } else if i == 51 {
        reveal_strlit("vilt");
        reveal_strlit("transformers.vilt_image_processor");
        assert(presets[51].spec_recipe_id()@ =~= spec_expected_recipe_id(presets[51].spec_model_type()@));
    }
}

/// Every preset passes the geometry and patch checks: its edges are non-zero, the audited
/// edge is at least the minimum, and the patch edge divides the output edge.
proof fn lemma_preset_geometry(preset: MultimodalPreset)
    ensures
        preset.spec_output_edge() > 0,
        preset.spec_minimum_input_edge() > 0,
        preset.spec_minimum_input_edge() <= preset.spec_audited_input_edge(),
        preset.spec_patch_size() matches Some(patch) ==> patch > 0 && preset.spec_output_edge() % patch == 0,
{
}

/// Every catalog preset passes the recipe checks: its recipe is
/// `transformers.<model_type>_image_processor`, its output edge is non-zero, its minimum
/// input edge is at most its audited input edge, and a patch edge divides its output
/// edge, so building its recipe succeeds with the preset's own geometry.
pub proof fn catalog_presets_pass_recipe_checks(i: int)
    requires
        0 <= i < spec_multimodal_presets().len(),
    ensures
        spec_recipe_check(spec_multimodal_presets()[i]) is Ok,
        spec_processor_recipe(spec_multimodal_presets()[i]) matches Ok(r) && r.spec_preset() == spec_multimodal_presets()[i],
        spec_multimodal_presets()[i].spec_recipe_id()@ == spec_expected_recipe_id(spec_multimodal_presets()[i].spec_model_type()@),
        spec_multimodal_presets()[i].spec_output_edge() > 0,
        spec_multimodal_presets()[i].spec_minimum_input_edge() <= spec_multimodal_presets()[i].spec_audited_input_edge(),
        spec_multimodal_presets()[i].spec_patch_size() matches Some(patch)
            ==> spec_multimodal_presets()[i].spec_output_edge() % patch == 0,
{
    lemma_catalog_recipe_id(i);
    lemma_preset_geometry(spec_multimodal_presets()[i]);
}

/// Every preset of the catalog returned by [`multimodal_presets`] passes the recipe
/// checks, so [`MultimodalPreset::processor_recipe`] returns `Ok` with a recipe of that
/// preset: its id is `transformers.<model_type>_image_processor`, its output edge is
/// non-zero, its minimum input edge is at most its audited input edge, and its patch
/// size, when it has one, divides its output edge.
pub proof fn every_catalog_preset_builds_its_recipe()
    ensures
        forall|p: MultimodalPreset| #[trigger] spec_multimodal_presets().contains(p) ==> {
            &&& spec_recipe_check(p) is Ok
            &&& spec_processor_recipe(p) matches Ok(r) && r.spec_preset() == p
            &&& p.spec_recipe_id()@ == spec_expected_recipe_id(p.spec_model_type()@)
            &&& p.spec_output_edge() > 0
            &&& p.spec_minimum_input_edge() <= p.spec_audited_input_edge()
            &&& (p.spec_patch_size() matches Some(patch) ==> p.spec_output_edge() % patch == 0)
        },
{
    assert forall|p: MultimodalPreset| #[trigger] spec_multimodal_presets().contains(p) implies {
        &&& spec_recipe_check(p) is Ok
        &&& spec_processor_recipe(p) matches Ok(r) && r.spec_preset() == p
        &&& p.spec_recipe_id()@ == spec_expected_recipe_id(p.spec_model_type()@)
        &&& p.spec_output_edge() > 0
        &&& p.spec_minimum_input_edge() <= p.spec_audited_input_edge()
        &&& (p.spec_patch_size() matches Some(patch) ==> p.spec_output_edge() % patch == 0)
    } by {
        let i = choose|i: int| 0 <= i < spec_multimodal_presets().len() && spec_multimodal_presets()[i] == p;
        catalog_presets_pass_recipe_checks(i);
    }
}

/// Resize backend selected by a canonical or legacy processor class.
#[derive(Clone, Copy, Debug, PartialEq, Eq, Structural)]
pub enum MultimodalResizeBackend {
    /// Antialiased tensor resize used by canonical Transformers processors.
    Torchvision,
    /// Pillow-compatible resize used by legacy `*Pil` aliases.
    Pillow,
}

impl MultimodalResizeBackend {
    /// Returns the resize parity policy that this backend executes.
    pub fn parity(self) -> (r: ResizeParity)
        ensures
            r == (match self {
                MultimodalResizeBackend::Torchvision => ResizeParity::Torchvision,
                MultimodalResizeBackend::Pillow => ResizeParity::Compatibility,
            }),
    {
        match self {
            MultimodalResizeBackend::Torchvision => ResizeParity::Torchvision,
            MultimodalResizeBackend::Pillow => ResizeParity::Compatibility,
        }
    }
}

/// The backend a requested class name selects: Pillow for the `*Pil` names.
pub open spec fn spec_resize_backend_for(name: Seq<char>) -> MultimodalResizeBackend {
    if ends_with_seq(name, "Pil"@) {
        MultimodalResizeBackend::Pillow
    } else {
        MultimodalResizeBackend::Torchvision
    }
}

/// Errors returned by audited multimodal preprocessing.
#[allow(inconsistent_fields)]
#[derive(Clone, Debug, PartialEq, Eq)]
pub enum MultimodalProcessorError {
    /// No audited preset exists for a class.
    UnknownClass(String),
    /// The input is empty.
    EmptyInput,
    /// A profile that accepts one image received additional frames.
    UnsupportedFrameCount {
        /// Canonical processor class.
        class_name: &'static str,
        /// Actual number of supplied frames.
        actual: usize,
    },
    /// Compact presets require RGB input.
    UnsupportedPixelFormat(PixelFormat),
    /// Compact presets require a square input.
    NonSquareInput {
        /// Input width.
        width: usize,
        /// Input height.
        height: usize,
    },
    /// A compact preset received an input below its supported minimum edge.
    InputTooSmall {
        /// Minimum supported edge.
        minimum: usize,
        /// Actual input edge.
        actual: usize,
    },
    /// An array contained a zero dimension.
    ZeroArrayDimension,
    /// An array shape overflowed `usize`.
    ShapeOverflow,
    /// Array data and shape lengths differ.
    InvalidArrayLength {
        /// Expected element count.
        expected: usize,
        /// Actual element count.
        actual: usize,
    },
    /// Document rectification received a zero image or output dimension.
    InvalidRectificationDimensions {
        /// Dimension group (`image` or `output`).
        field: &'static str,
        /// Invalid width.
        width: usize,
        /// Invalid height.
        height: usize,
    },
    /// Document rectification received a non-finite image value.
    NonFiniteRectificationImageValue {
        /// Invalid flattened image index.
        index: usize,
        /// IEEE-754 bit pattern of the non-finite single-precision value.
        value: u32,
    },
    /// Document rectification received a non-finite grid coordinate.
    NonFiniteRectificationGridCoordinate {
        /// Invalid flattened grid index.
        index: usize,
        /// Coordinate axis (`x` or `y`).
        axis: &'static str,
        /// IEEE-754 bit pattern of the non-finite single-precision value.
        value: u32,
    },
    /// Document rectification received a non-finite output scale, given by its
    /// IEEE-754 single-precision bit pattern.
    NonFiniteRectificationScale(u32),
    /// An internal fixed processor returned an unexpected dtype.
    UnexpectedTensorDtype,
    /// A logits shape was invalid.
    InvalidLogitsLength {
        /// Expected value count.
        expected: usize,
        /// Actual value count.
        actual: usize,
    },
    /// A prediction referenced a vocabulary entry that does not exist.
    VocabularyIndex {
        /// Invalid index.
        index: usize,
        /// Available vocabulary length.
        vocabulary_len: usize,
    },
    /// The generic image processor failed.
    Image(ImageProcessorError),
}

/// What [`MultimodalProcessor::for_class`] returns for `name`: an unknown-class
/// error naming it, or a processor for its preset that records `name` as the
/// requested class and selects the backend that `name` implies.
pub open spec fn for_class_outcome(name: Seq<char>, r: Result<MultimodalProcessor, MultimodalProcessorError>) -> bool {
    match spec_multimodal_preset(name) {
        None => r matches Err(MultimodalProcessorError::UnknownClass(s)) && s@ == name,
        Some(preset) => r matches Ok(p) && p.spec_preset() == preset
            && p.spec_requested_class_name()@ == name
            && p.spec_resize_backend() == spec_resize_backend_for(name),
    }
}

/// The input check of a compact preset: an RGB8, square frame whose edge is at
/// least the preset's minimum.
pub open spec fn spec_input_check(preset: MultimodalPreset, frame: ImageFrame) -> Result<(), MultimodalProcessorError> {
    if frame.spec_pixel_format() != PixelFormat::Rgb8 {
        Err(MultimodalProcessorError::UnsupportedPixelFormat(frame.spec_pixel_format()))
    } else if frame.spec_width() != frame.spec_height() {
        Err(MultimodalProcessorError::NonSquareInput { width: frame.spec_width(), height: frame.spec_height() })
    } else if frame.spec_width() < preset.spec_minimum_input_edge() {
        Err(MultimodalProcessorError::InputTooSmall {
            minimum: preset.spec_minimum_input_edge(),
            actual: frame.spec_width(),
        })
    } else {
        Ok(())
    }
}

/// The first input-check failure among the frames at index `start` or later.
pub open spec fn inputs_check_from(preset: MultimodalPreset, frames: Seq<ImageFrame>, start: int) -> Result<(), MultimodalProcessorError>
    decreases frames.len() - start,
{
    if start < 0 || start >= frames.len() {
        Ok(())
    } else {
        match spec_input_check(preset, frames[start]) {
            Err(e) => Err(e),
            Ok(()) => inputs_check_from(preset, frames, start + 1),
        }
    }
}

/// The checks made before a frame batch is preprocessed: it is non-empty, holds a
/// single frame unless the profile takes sequences, and every frame passes the
/// input check.
pub open spec fn spec_frames_check(preset: MultimodalPreset, frames: Seq<ImageFrame>) -> Result<(), MultimodalProcessorError> {
    if frames.len() == 0 {
        Err(MultimodalProcessorError::EmptyInput)
    } else if frames.len() > 1 && !spec_profile_accepts_frame_sequences(preset.spec_profile()) {
        Err(MultimodalProcessorError::UnsupportedFrameCount {
            class_name: preset.spec_class_name(),
            actual: frames.len() as usize,
        })
    } else {
        inputs_check_from(preset, frames, 0)
    }
}

/// Checks that `frame` is an RGB8 square image no smaller than the preset's minimum edge.
pub fn ensure_input(preset: &MultimodalPreset, frame: &ImageFrame) -> (r: Result<(), MultimodalProcessorError>)
    ensures
        r == spec_input_check(*preset, *frame),
{
    let format = frame.pixel_format();
    match format {
        PixelFormat::Rgb8 => {},
        _ => return Err(MultimodalProcessorError::UnsupportedPixelFormat(format)),
    }
    if frame.width() != frame.height() {
        return Err(MultimodalProcessorError::NonSquareInput { width: frame.width(), height: frame.height() });
    }
    let minimum = preset.minimum_input_edge();
    if frame.width() < minimum {
        return Err(MultimodalProcessorError::InputTooSmall { minimum, actual: frame.width() });
    }
    Ok(())
}

/// Executes one audited multimodal class through a shared Rust profile.
#[derive(Clone, Copy, Debug)]
pub struct MultimodalProcessor {
    preset: &'static MultimodalPreset,
    requested_class_name: &'static str,
    resize_backend: MultimodalResizeBackend,
}

impl MultimodalProcessor {
    /// The selected preset.
    pub closed spec fn spec_preset(self) -> MultimodalPreset {
        *self.preset
    }

    /// The canonical class or exact alias used to construct this processor.
    pub closed spec fn spec_requested_class_name(self) -> &'static str {
        self.requested_class_name
    }

    /// The resize backend selected by the requested class.
    pub closed spec fn spec_resize_backend(self) -> MultimodalResizeBackend {
        self.resize_backend
    }

    /// Creates a processor for an audited upstream class or one of its aliases.
    pub fn for_class(class_name: &str) -> (r: Result<Self, MultimodalProcessorError>)
        ensures
            for_class_outcome(class_name@, r),
    {
        let alias = find_alias_entry(class_name);
        let found = match alias {
            Some(entry) => find_preset(entry.1),
            None => find_preset(class_name),
        };
        let preset = match found {
            Some(p) => p,
            None => return Err(MultimodalProcessorError::UnknownClass(class_name.to_owned())),
        };
        let requested_class_name: &'static str = match alias {
            Some(entry) => entry.0,
            None => preset.class_name,
        };
        proof {
            lemma_alias_entry_names(class_name@, 0);
            lemma_preset_names(canonical_class_name(class_name@), 0);
        }
        let resize_backend = if str_ends_with(requested_class_name, "Pil") {
            MultimodalResizeBackend::Pillow
        } else {
            MultimodalResizeBackend::Torchvision
        };
        Ok(MultimodalProcessor { preset, requested_class_name, resize_backend })
    }

    /// Returns the selected static preset.
    pub fn preset(self) -> (r: &'static MultimodalPreset)
        ensures
            *r == self.spec_preset(),
    {
        self.preset
    }

    /// Returns the canonical class or exact alias used to construct this processor.
    pub fn requested_class_name(self) -> (r: &'static str)
        ensures
            r == self.spec_requested_class_name(),
    {
        self.requested_class_name
    }

    /// Returns the resize backend selected by the requested class.
    pub fn resize_backend(self) -> (r: MultimodalResizeBackend)
        ensures
            r == self.spec_resize_backend(),
    {
        self.resize_backend
    }

    /// Checks a frame batch before preprocessing: it must be non-empty, hold one
    /// frame unless the profile takes sequences, and every frame must pass
    /// [`ensure_input`].
    pub fn validate_frames(self, frames: &[ImageFrame]) -> (r: Result<(), MultimodalProcessorError>)
        ensures
            r == spec_frames_check(self.spec_preset(), frames@),
    {
        let preset = self.preset;
        if frames.len() == 0 {
            return Err(MultimodalProcessorError::EmptyInput);
        }
        let takes_sequences = match preset.profile {
            MultimodalProfile::PatchGrid | MultimodalProfile::Video => true,
            _ => false,
        };
        if frames.len() > 1 && !takes_sequences {
            return Err(MultimodalProcessorError::UnsupportedFrameCount {
                class_name: preset.class_name,
                actual: frames.len(),
            });
        }
        let mut i: usize = 0;
        while i < frames.len()
            invariant
                i <= frames@.len(),
                *preset == self.spec_preset(),
                spec_frames_check(*preset, frames@) == inputs_check_from(*preset, frames@, 0),
                inputs_check_from(*preset, frames@, 0) == inputs_check_from(*preset, frames@, i as int),
            decreases frames@.len() - i,
        {
            let checked = ensure_input(preset, &frames[i]);
            assert(inputs_check_from(*preset, frames@, i as int) == match spec_input_check(*preset, frames@[i as int]) {
                Err(e) => Err(e),
                Ok(()) => inputs_check_from(*preset, frames@, i + 1),
            });
            if let Err(e) = checked {
                return Err(e);
            }
            i = i + 1;
        }
        Ok(())
    }
}

/// One OCR word with a LayoutLM-style normalized bounding box.
#[derive(Clone, Debug, PartialEq, Eq)]
pub struct OcrWord {
    /// Recognized word text.
    pub text: String,
    /// Corner box normalized to the inclusive `0..=1000` page coordinate space.
    pub box_1000: [u16; 4],
}

/// A pixel coordinate clamped to the page extent and scaled to `0..=1000`.
pub open spec fn spec_page_coordinate(value: usize, extent: usize) -> int {
    (if value < extent { value as int } else { extent as int }) * 1000 / (extent as int)
}

/// Whether scaling a clamped coordinate of a page extent by 1000 stays within `usize`.
pub open spec fn page_coordinate_fits(value: usize, extent: usize) -> bool {
    (if value < extent { value as int } else { extent as int }) * 1000 <= usize::MAX
}

/// Scales one clamped coordinate into `0..=1000`.
fn page_coordinate(value: usize, extent: usize) -> (r: u16)
    requires
        extent > 0,
        page_coordinate_fits(value, extent),
    ensures
        r == spec_page_coordinate(value, extent),
{
    let clamped = if value < extent { value } else { extent };
    let scaled = clamped * 1000;
    let r = scaled / extent;
    assert(r <= 1000) by (nonlinear_arith)
        requires
            clamped <= extent,
            extent > 0,
            scaled == clamped * 1000,
            r == scaled / extent,
    {
        assert(scaled <= extent * 1000);
    }
    r as u16
}

/// Normalizes a pixel-space OCR word box `[x0, y0, x1, y1]` into LayoutLM page
/// coordinates; a zero page dimension is rejected.
pub fn normalize_ocr_word(text: String, bounds: [usize; 4], page_width: usize, page_height: usize) -> (r: Result<OcrWord, MultimodalProcessorError>)
    requires
        page_width > 0 && page_height > 0 ==> {
            &&& page_coordinate_fits(bounds[0], page_width)
            &&& page_coordinate_fits(bounds[1], page_height)
            &&& page_coordinate_fits(bounds[2], page_width)
            &&& page_coordinate_fits(bounds[3], page_height)
        },
    ensures
        page_width == 0 || page_height == 0 ==> r == Err::<OcrWord, MultimodalProcessorError>(MultimodalProcessorError::ZeroArrayDimension),
        page_width > 0 && page_height > 0 ==> (r matches Ok(word) && word.text@ == text@
            && word.box_1000[0] == spec_page_coordinate(bounds[0], page_width)
            && word.box_1000[1] == spec_page_coordinate(bounds[1], page_height)
            && word.box_1000[2] == spec_page_coordinate(bounds[2], page_width)
            && word.box_1000[3] == spec_page_coordinate(bounds[3], page_height)),
{
    if page_width == 0 || page_height == 0 {
        return Err(MultimodalProcessorError::ZeroArrayDimension);
    }
    let x0 = page_coordinate(bounds[0], page_width);
    let y0 = page_coordinate(bounds[1], page_height);
    let x1 = page_coordinate(bounds[2], page_width);
    let y1 = page_coordinate(bounds[3], page_height);
    Ok(OcrWord { text, box_1000: [x0, y0, x1, y1] })
}

/// Rectified BGR document image.
#[derive(Clone, Debug, PartialEq, Eq)]
pub struct RectifiedDocument {
    /// Output image width.
    pub width: usize,
    /// Output image height.
    pub height: usize,
    /// Interleaved BGR bytes.
    pub bgr: Vec<u8>,
}

} // verus!
