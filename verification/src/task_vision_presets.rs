//! Task-vision presets: class names, aliases, recipe ids, task families and request options.

use vstd::prelude::*;

use crate::geometry::ImageSize;
use crate::text::str_equal;

verus! {

/// Transformers task-vision processor preset.
#[derive(Clone, Copy, Debug, PartialEq, Eq, Hash, Structural)]
pub enum TaskVisionProcessorPreset {
    /// `ConditionalDetrImageProcessor`.
    ConditionalDetr,
    /// `DeformableDetrImageProcessor`.
    DeformableDetr,
    /// `GroundingDinoImageProcessor`.
    GroundingDino,
    /// `OwlViTImageProcessor`.
    OwlVit,
    /// `Owlv2ImageProcessor`.
    Owlv2,
    /// `PPDocLayoutV2ImageProcessor`.
    PpDocLayoutV2,
    /// `PPDocLayoutV3ImageProcessor`.
    PpDocLayoutV3,
    /// `PPOCRV5ServerDetImageProcessor`.
    PpOcrV5ServerDet,
    /// `RTDetrImageProcessor`.
    RtDetr,
    /// `RfDetrImageProcessor`.
    RfDetr,
    /// `YolosImageProcessor`.
    Yolos,
    /// `EomtImageProcessor`.
    Eomt,
    /// `Mask2FormerImageProcessor`.
    Mask2Former,
    /// `MaskFormerImageProcessor`.
    MaskFormer,
    /// `OneFormerImageProcessor`.
    OneFormer,
    /// `Sam2ImageProcessor`.
    Sam2,
    /// `Sam3ImageProcessor`.
    Sam3,
    /// `Sapiens2ImageProcessor`.
    Sapiens2,
    /// `SegGptImageProcessor`.
    SegGpt,
    /// `SegformerImageProcessor`.
    Segformer,
    /// `VitMatteImageProcessor`.
    VitMatte,
    /// `CHMv2ImageProcessor`.
    ChmV2,
    /// `DPTImageProcessor`.
    Dpt,
    /// `DepthProImageProcessor`.
    DepthPro,
    /// `GLPNImageProcessor`.
    Glpn,
    /// `PromptDepthAnythingImageProcessor`.
    PromptDepthAnything,
    /// `Tipsv2DptImageProcessor`.
    TipsV2Dpt,
    /// `Tipsv2ImageProcessor`.
    TipsV2,
    /// `ZoeDepthImageProcessor`.
    ZoeDepth,
    /// `EfficientLoFTRImageProcessor`.
    EfficientLoFtr,
    /// `LightGlueImageProcessor`.
    LightGlue,
    /// `SuperGlueImageProcessor`.
    SuperGlue,
    /// `SuperPointImageProcessor`.
    SuperPoint,
    /// `VitPoseImageProcessor`.
    VitPose,
}

impl TaskVisionProcessorPreset {
    /// Every task-vision preset, in stable catalog order.
    pub const ALL: [TaskVisionProcessorPreset; 34] = [
        TaskVisionProcessorPreset::ConditionalDetr,
        TaskVisionProcessorPreset::DeformableDetr,
        TaskVisionProcessorPreset::GroundingDino,
        TaskVisionProcessorPreset::OwlVit,
        TaskVisionProcessorPreset::Owlv2,
        TaskVisionProcessorPreset::PpDocLayoutV2,
        TaskVisionProcessorPreset::PpDocLayoutV3,
        TaskVisionProcessorPreset::PpOcrV5ServerDet,
        TaskVisionProcessorPreset::RtDetr,
        TaskVisionProcessorPreset::RfDetr,
        TaskVisionProcessorPreset::Yolos,
        TaskVisionProcessorPreset::Eomt,
        TaskVisionProcessorPreset::Mask2Former,
        TaskVisionProcessorPreset::MaskFormer,
        TaskVisionProcessorPreset::OneFormer,
        TaskVisionProcessorPreset::Sam2,
        TaskVisionProcessorPreset::Sam3,
        TaskVisionProcessorPreset::Sapiens2,
        TaskVisionProcessorPreset::SegGpt,
        TaskVisionProcessorPreset::Segformer,
        TaskVisionProcessorPreset::VitMatte,
        TaskVisionProcessorPreset::ChmV2,
        TaskVisionProcessorPreset::Dpt,
        TaskVisionProcessorPreset::DepthPro,
        TaskVisionProcessorPreset::Glpn,
        TaskVisionProcessorPreset::PromptDepthAnything,
        TaskVisionProcessorPreset::TipsV2Dpt,
        TaskVisionProcessorPreset::TipsV2,
        TaskVisionProcessorPreset::ZoeDepth,
        TaskVisionProcessorPreset::EfficientLoFtr,
        TaskVisionProcessorPreset::LightGlue,
        TaskVisionProcessorPreset::SuperGlue,
        TaskVisionProcessorPreset::SuperPoint,
        TaskVisionProcessorPreset::VitPose,
    ];

    /// Position of this preset in [`Self::ALL`].
    pub open spec fn catalog_index(self) -> int {
        match self {
            TaskVisionProcessorPreset::ConditionalDetr => 0,
            TaskVisionProcessorPreset::DeformableDetr => 1,
            TaskVisionProcessorPreset::GroundingDino => 2,
            TaskVisionProcessorPreset::OwlVit => 3,
            TaskVisionProcessorPreset::Owlv2 => 4,
            TaskVisionProcessorPreset::PpDocLayoutV2 => 5,
            TaskVisionProcessorPreset::PpDocLayoutV3 => 6,
            TaskVisionProcessorPreset::PpOcrV5ServerDet => 7,
            TaskVisionProcessorPreset::RtDetr => 8,
            TaskVisionProcessorPreset::RfDetr => 9,
            TaskVisionProcessorPreset::Yolos => 10,
            TaskVisionProcessorPreset::Eomt => 11,
            TaskVisionProcessorPreset::Mask2Former => 12,
            TaskVisionProcessorPreset::MaskFormer => 13,
            TaskVisionProcessorPreset::OneFormer => 14,
            TaskVisionProcessorPreset::Sam2 => 15,
            TaskVisionProcessorPreset::Sam3 => 16,
            TaskVisionProcessorPreset::Sapiens2 => 17,
            TaskVisionProcessorPreset::SegGpt => 18,
            TaskVisionProcessorPreset::Segformer => 19,
            TaskVisionProcessorPreset::VitMatte => 20,
            TaskVisionProcessorPreset::ChmV2 => 21,
            TaskVisionProcessorPreset::Dpt => 22,
            TaskVisionProcessorPreset::DepthPro => 23,
            TaskVisionProcessorPreset::Glpn => 24,
            TaskVisionProcessorPreset::PromptDepthAnything => 25,
            TaskVisionProcessorPreset::TipsV2Dpt => 26,
            TaskVisionProcessorPreset::TipsV2 => 27,
            TaskVisionProcessorPreset::ZoeDepth => 28,
            TaskVisionProcessorPreset::EfficientLoFtr => 29,
            TaskVisionProcessorPreset::LightGlue => 30,
            TaskVisionProcessorPreset::SuperGlue => 31,
            TaskVisionProcessorPreset::SuperPoint => 32,
            TaskVisionProcessorPreset::VitPose => 33,
        }
    }

    /// Canonical Transformers class name.
    pub open spec fn spec_class_name(self) -> &'static str {
        match self {
            TaskVisionProcessorPreset::ConditionalDetr => "ConditionalDetrImageProcessor",
            TaskVisionProcessorPreset::DeformableDetr => "DeformableDetrImageProcessor",
            TaskVisionProcessorPreset::GroundingDino => "GroundingDinoImageProcessor",
            TaskVisionProcessorPreset::OwlVit => "OwlViTImageProcessor",
            TaskVisionProcessorPreset::Owlv2 => "Owlv2ImageProcessor",
            TaskVisionProcessorPreset::PpDocLayoutV2 => "PPDocLayoutV2ImageProcessor",
            TaskVisionProcessorPreset::PpDocLayoutV3 => "PPDocLayoutV3ImageProcessor",
            TaskVisionProcessorPreset::PpOcrV5ServerDet => "PPOCRV5ServerDetImageProcessor",
            TaskVisionProcessorPreset::RtDetr => "RTDetrImageProcessor",
            TaskVisionProcessorPreset::RfDetr => "RfDetrImageProcessor",
            TaskVisionProcessorPreset::Yolos => "YolosImageProcessor",
            TaskVisionProcessorPreset::Eomt => "EomtImageProcessor",
            TaskVisionProcessorPreset::Mask2Former => "Mask2FormerImageProcessor",
            TaskVisionProcessorPreset::MaskFormer => "MaskFormerImageProcessor",
            TaskVisionProcessorPreset::OneFormer => "OneFormerImageProcessor",
            TaskVisionProcessorPreset::Sam2 => "Sam2ImageProcessor",
            TaskVisionProcessorPreset::Sam3 => "Sam3ImageProcessor",
            TaskVisionProcessorPreset::Sapiens2 => "Sapiens2ImageProcessor",
            TaskVisionProcessorPreset::SegGpt => "SegGptImageProcessor",
            TaskVisionProcessorPreset::Segformer => "SegformerImageProcessor",
            TaskVisionProcessorPreset::VitMatte => "VitMatteImageProcessor",
            TaskVisionProcessorPreset::ChmV2 => "CHMv2ImageProcessor",
            TaskVisionProcessorPreset::Dpt => "DPTImageProcessor",
            TaskVisionProcessorPreset::DepthPro => "DepthProImageProcessor",
            TaskVisionProcessorPreset::Glpn => "GLPNImageProcessor",
            TaskVisionProcessorPreset::PromptDepthAnything => "PromptDepthAnythingImageProcessor",
            TaskVisionProcessorPreset::TipsV2Dpt => "Tipsv2DptImageProcessor",
            TaskVisionProcessorPreset::TipsV2 => "Tipsv2ImageProcessor",
            TaskVisionProcessorPreset::ZoeDepth => "ZoeDepthImageProcessor",
            TaskVisionProcessorPreset::EfficientLoFtr => "EfficientLoFTRImageProcessor",
            TaskVisionProcessorPreset::LightGlue => "LightGlueImageProcessor",
            TaskVisionProcessorPreset::SuperGlue => "SuperGlueImageProcessor",
            TaskVisionProcessorPreset::SuperPoint => "SuperPointImageProcessor",
            TaskVisionProcessorPreset::VitPose => "VitPoseImageProcessor",
        }
    }

    /// Backend aliases that share this preset.
    pub open spec fn spec_class_aliases(self) -> Seq<&'static str> {
        match self {
            TaskVisionProcessorPreset::ConditionalDetr => seq!["ConditionalDetrImageProcessorPil"],
            TaskVisionProcessorPreset::DeformableDetr => seq!["DeformableDetrImageProcessorPil"],
            TaskVisionProcessorPreset::GroundingDino => seq!["GroundingDinoImageProcessorPil"],
            TaskVisionProcessorPreset::OwlVit => seq!["OwlViTImageProcessorPil"],
            TaskVisionProcessorPreset::Owlv2 => seq!["Owlv2ImageProcessorPil"],
            TaskVisionProcessorPreset::PpDocLayoutV2 => seq![],
            TaskVisionProcessorPreset::PpDocLayoutV3 => seq![],
            TaskVisionProcessorPreset::PpOcrV5ServerDet => seq![],
            TaskVisionProcessorPreset::RtDetr => seq!["RTDetrImageProcessorPil"],
            TaskVisionProcessorPreset::RfDetr => seq![],
            TaskVisionProcessorPreset::Yolos => seq!["YolosImageProcessorPil"],
            TaskVisionProcessorPreset::Eomt => seq!["EomtImageProcessorPil"],
            TaskVisionProcessorPreset::Mask2Former => seq!["Mask2FormerImageProcessorPil"],
            TaskVisionProcessorPreset::MaskFormer => seq!["MaskFormerImageProcessorPil"],
            TaskVisionProcessorPreset::OneFormer => seq!["OneFormerImageProcessorPil"],
            TaskVisionProcessorPreset::Sam2 => seq![],
            TaskVisionProcessorPreset::Sam3 => seq![],
            TaskVisionProcessorPreset::Sapiens2 => seq![],
            TaskVisionProcessorPreset::SegGpt => seq!["SegGptImageProcessorPil"],
            TaskVisionProcessorPreset::Segformer => seq!["SegformerImageProcessorPil"],
            TaskVisionProcessorPreset::VitMatte => seq!["VitMatteImageProcessorPil"],
            TaskVisionProcessorPreset::ChmV2 => seq![],
            TaskVisionProcessorPreset::Dpt => seq!["DPTImageProcessorPil"],
            TaskVisionProcessorPreset::DepthPro => seq![],
            TaskVisionProcessorPreset::Glpn => seq!["GLPNImageProcessorPil"],
            TaskVisionProcessorPreset::PromptDepthAnything => seq!["PromptDepthAnythingImageProcessorPil"],
            TaskVisionProcessorPreset::TipsV2Dpt => seq![],
            TaskVisionProcessorPreset::TipsV2 => seq![],
            TaskVisionProcessorPreset::ZoeDepth => seq!["ZoeDepthImageProcessorPil"],
            TaskVisionProcessorPreset::EfficientLoFtr => seq!["EfficientLoFTRImageProcessorPil"],
            TaskVisionProcessorPreset::LightGlue => seq!["LightGlueImageProcessorPil"],
            TaskVisionProcessorPreset::SuperGlue => seq!["SuperGlueImageProcessorPil"],
            TaskVisionProcessorPreset::SuperPoint => seq!["SuperPointImageProcessorPil"],
            TaskVisionProcessorPreset::VitPose => seq!["VitPoseImageProcessorPil"],
        }
    }

    /// Stable recipe identifier.
    pub open spec fn spec_recipe_id(self) -> &'static str {
        match self {
            TaskVisionProcessorPreset::ConditionalDetr => "transformers.conditional_detr_image_processor",
            TaskVisionProcessorPreset::DeformableDetr => "transformers.conditional_detr_image_processor",
            TaskVisionProcessorPreset::GroundingDino => "transformers.grounding_dino_image_processor",
            TaskVisionProcessorPreset::OwlVit => "transformers.owlvit_image_processor",
            TaskVisionProcessorPreset::Owlv2 => "transformers.owlv2_image_processor",
            TaskVisionProcessorPreset::PpDocLayoutV2 => "transformers.pp_doclayout_image_processor",
            TaskVisionProcessorPreset::PpDocLayoutV3 => "transformers.pp_doclayout_image_processor",
            TaskVisionProcessorPreset::PpOcrV5ServerDet => "transformers.pp_ocr_detection_image_processor",
            TaskVisionProcessorPreset::RtDetr => "transformers.rt_detr_image_processor",
            TaskVisionProcessorPreset::RfDetr => "transformers.rf_detr_image_processor",
            TaskVisionProcessorPreset::Yolos => "transformers.yolos_image_processor",
            TaskVisionProcessorPreset::Eomt => "transformers.eomt_image_processor",
            TaskVisionProcessorPreset::Mask2Former => "transformers.maskformer_image_processor",
            TaskVisionProcessorPreset::MaskFormer => "transformers.maskformer_image_processor",
            TaskVisionProcessorPreset::OneFormer => "transformers.oneformer_image_processor",
            TaskVisionProcessorPreset::Sam2 => "transformers.sam2_image_processor",
            TaskVisionProcessorPreset::Sam3 => "transformers.sam3_image_processor",
            TaskVisionProcessorPreset::Sapiens2 => "transformers.sapiens2_image_processor",
            TaskVisionProcessorPreset::SegGpt => "transformers.seggpt_image_processor",
            TaskVisionProcessorPreset::Segformer => "transformers.segformer_image_processor",
            TaskVisionProcessorPreset::VitMatte => "transformers.vitmatte_image_processor",
            TaskVisionProcessorPreset::ChmV2 => "transformers.chmv2_image_processor",
            TaskVisionProcessorPreset::Dpt => "transformers.dpt_image_processor",
            TaskVisionProcessorPreset::DepthPro => "transformers.depth_pro_image_processor",
            TaskVisionProcessorPreset::Glpn => "transformers.glpn_image_processor",
            TaskVisionProcessorPreset::PromptDepthAnything => "transformers.dpt_image_processor",
            TaskVisionProcessorPreset::TipsV2Dpt => "transformers.tipsv2_image_processor",
            TaskVisionProcessorPreset::TipsV2 => "transformers.tipsv2_image_processor",
            TaskVisionProcessorPreset::ZoeDepth => "transformers.zoedepth_image_processor",
            TaskVisionProcessorPreset::EfficientLoFtr => "transformers.keypoint_matching_image_processor",
            TaskVisionProcessorPreset::LightGlue => "transformers.keypoint_matching_image_processor",
            TaskVisionProcessorPreset::SuperGlue => "transformers.keypoint_matching_image_processor",
            TaskVisionProcessorPreset::SuperPoint => "transformers.superpoint_image_processor",
            TaskVisionProcessorPreset::VitPose => "transformers.vitpose_image_processor",
        }
    }

    /// Broad task family.
    pub open spec fn spec_family(self) -> TaskVisionProcessorFamily {
        match self {
            TaskVisionProcessorPreset::ConditionalDetr => TaskVisionProcessorFamily::DetectionGrounding,
            TaskVisionProcessorPreset::DeformableDetr => TaskVisionProcessorFamily::DetectionGrounding,
            TaskVisionProcessorPreset::GroundingDino => TaskVisionProcessorFamily::DetectionGrounding,
            TaskVisionProcessorPreset::OwlVit => TaskVisionProcessorFamily::DetectionGrounding,
            TaskVisionProcessorPreset::Owlv2 => TaskVisionProcessorFamily::DetectionGrounding,
            TaskVisionProcessorPreset::PpDocLayoutV2 => TaskVisionProcessorFamily::DetectionGrounding,
            TaskVisionProcessorPreset::PpDocLayoutV3 => TaskVisionProcessorFamily::DetectionGrounding,
            TaskVisionProcessorPreset::PpOcrV5ServerDet => TaskVisionProcessorFamily::DetectionGrounding,
            TaskVisionProcessorPreset::RtDetr => TaskVisionProcessorFamily::DetectionGrounding,
            TaskVisionProcessorPreset::RfDetr => TaskVisionProcessorFamily::DetectionGrounding,
            TaskVisionProcessorPreset::Yolos => TaskVisionProcessorFamily::DetectionGrounding,
            TaskVisionProcessorPreset::Eomt => TaskVisionProcessorFamily::Segmentation,
            TaskVisionProcessorPreset::Mask2Former => TaskVisionProcessorFamily::Segmentation,
            TaskVisionProcessorPreset::MaskFormer => TaskVisionProcessorFamily::Segmentation,
            TaskVisionProcessorPreset::OneFormer => TaskVisionProcessorFamily::Segmentation,
            TaskVisionProcessorPreset::Sam2 => TaskVisionProcessorFamily::Segmentation,
            TaskVisionProcessorPreset::Sam3 => TaskVisionProcessorFamily::Segmentation,
            TaskVisionProcessorPreset::Sapiens2 => TaskVisionProcessorFamily::Segmentation,
            TaskVisionProcessorPreset::SegGpt => TaskVisionProcessorFamily::Segmentation,
            TaskVisionProcessorPreset::Segformer => TaskVisionProcessorFamily::Segmentation,
            TaskVisionProcessorPreset::VitMatte => TaskVisionProcessorFamily::Segmentation,
            TaskVisionProcessorPreset::ChmV2 => TaskVisionProcessorFamily::DepthGeometry,
            TaskVisionProcessorPreset::Dpt => TaskVisionProcessorFamily::DepthGeometry,
            TaskVisionProcessorPreset::DepthPro => TaskVisionProcessorFamily::DepthGeometry,
            TaskVisionProcessorPreset::Glpn => TaskVisionProcessorFamily::DepthGeometry,
            TaskVisionProcessorPreset::PromptDepthAnything => TaskVisionProcessorFamily::DepthGeometry,
            TaskVisionProcessorPreset::TipsV2Dpt => TaskVisionProcessorFamily::DepthGeometry,
            TaskVisionProcessorPreset::TipsV2 => TaskVisionProcessorFamily::DepthGeometry,
            TaskVisionProcessorPreset::ZoeDepth => TaskVisionProcessorFamily::DepthGeometry,
            TaskVisionProcessorPreset::EfficientLoFtr => TaskVisionProcessorFamily::KeypointMatchingPose,
            TaskVisionProcessorPreset::LightGlue => TaskVisionProcessorFamily::KeypointMatchingPose,
            TaskVisionProcessorPreset::SuperGlue => TaskVisionProcessorFamily::KeypointMatchingPose,
            TaskVisionProcessorPreset::SuperPoint => TaskVisionProcessorFamily::KeypointMatchingPose,
            TaskVisionProcessorPreset::VitPose => TaskVisionProcessorFamily::KeypointMatchingPose,
        }
    }

    /// Returns the broad task family represented by this preset.
    pub fn family(self) -> (r: TaskVisionProcessorFamily)
        ensures
            r == self.spec_family(),
    {
        match self {
            TaskVisionProcessorPreset::ConditionalDetr => TaskVisionProcessorFamily::DetectionGrounding,
            TaskVisionProcessorPreset::DeformableDetr => TaskVisionProcessorFamily::DetectionGrounding,
            TaskVisionProcessorPreset::GroundingDino => TaskVisionProcessorFamily::DetectionGrounding,
            TaskVisionProcessorPreset::OwlVit => TaskVisionProcessorFamily::DetectionGrounding,
            TaskVisionProcessorPreset::Owlv2 => TaskVisionProcessorFamily::DetectionGrounding,
            TaskVisionProcessorPreset::PpDocLayoutV2 => TaskVisionProcessorFamily::DetectionGrounding,
            TaskVisionProcessorPreset::PpDocLayoutV3 => TaskVisionProcessorFamily::DetectionGrounding,
            TaskVisionProcessorPreset::PpOcrV5ServerDet => TaskVisionProcessorFamily::DetectionGrounding,
            TaskVisionProcessorPreset::RtDetr => TaskVisionProcessorFamily::DetectionGrounding,
            TaskVisionProcessorPreset::RfDetr => TaskVisionProcessorFamily::DetectionGrounding,
            TaskVisionProcessorPreset::Yolos => TaskVisionProcessorFamily::DetectionGrounding,
            TaskVisionProcessorPreset::Eomt => TaskVisionProcessorFamily::Segmentation,
            TaskVisionProcessorPreset::Mask2Former => TaskVisionProcessorFamily::Segmentation,
            TaskVisionProcessorPreset::MaskFormer => TaskVisionProcessorFamily::Segmentation,
            TaskVisionProcessorPreset::OneFormer => TaskVisionProcessorFamily::Segmentation,
            TaskVisionProcessorPreset::Sam2 => TaskVisionProcessorFamily::Segmentation,
            TaskVisionProcessorPreset::Sam3 => TaskVisionProcessorFamily::Segmentation,
            TaskVisionProcessorPreset::Sapiens2 => TaskVisionProcessorFamily::Segmentation,
            TaskVisionProcessorPreset::SegGpt => TaskVisionProcessorFamily::Segmentation,
            TaskVisionProcessorPreset::Segformer => TaskVisionProcessorFamily::Segmentation,
            TaskVisionProcessorPreset::VitMatte => TaskVisionProcessorFamily::Segmentation,
            TaskVisionProcessorPreset::ChmV2 => TaskVisionProcessorFamily::DepthGeometry,
            TaskVisionProcessorPreset::Dpt => TaskVisionProcessorFamily::DepthGeometry,
            TaskVisionProcessorPreset::DepthPro => TaskVisionProcessorFamily::DepthGeometry,
            TaskVisionProcessorPreset::Glpn => TaskVisionProcessorFamily::DepthGeometry,
            TaskVisionProcessorPreset::PromptDepthAnything => TaskVisionProcessorFamily::DepthGeometry,
            TaskVisionProcessorPreset::TipsV2Dpt => TaskVisionProcessorFamily::DepthGeometry,
            TaskVisionProcessorPreset::TipsV2 => TaskVisionProcessorFamily::DepthGeometry,
            TaskVisionProcessorPreset::ZoeDepth => TaskVisionProcessorFamily::DepthGeometry,
            TaskVisionProcessorPreset::EfficientLoFtr => TaskVisionProcessorFamily::KeypointMatchingPose,
            TaskVisionProcessorPreset::LightGlue => TaskVisionProcessorFamily::KeypointMatchingPose,
            TaskVisionProcessorPreset::SuperGlue => TaskVisionProcessorFamily::KeypointMatchingPose,
            TaskVisionProcessorPreset::SuperPoint => TaskVisionProcessorFamily::KeypointMatchingPose,
            TaskVisionProcessorPreset::VitPose => TaskVisionProcessorFamily::KeypointMatchingPose,
        }
    }

    /// Whether `name` is this preset's canonical class name or one of its aliases.
    pub open spec fn answers_to(self, name: Seq<char>) -> bool {
        self.spec_class_name()@ == name || exists|i: int|
            0 <= i < self.spec_class_aliases().len() && (#[trigger] self.spec_class_aliases()[i])@ == name
    }

    /// Returns the canonical Transformers class name.
    pub fn class_name(self) -> (r: &'static str)
        ensures
            r == self.spec_class_name(),
    {
        match self {
            TaskVisionProcessorPreset::ConditionalDetr => "ConditionalDetrImageProcessor",
            TaskVisionProcessorPreset::DeformableDetr => "DeformableDetrImageProcessor",
            TaskVisionProcessorPreset::GroundingDino => "GroundingDinoImageProcessor",
            TaskVisionProcessorPreset::OwlVit => "OwlViTImageProcessor",
            TaskVisionProcessorPreset::Owlv2 => "Owlv2ImageProcessor",
            TaskVisionProcessorPreset::PpDocLayoutV2 => "PPDocLayoutV2ImageProcessor",
            TaskVisionProcessorPreset::PpDocLayoutV3 => "PPDocLayoutV3ImageProcessor",
            TaskVisionProcessorPreset::PpOcrV5ServerDet => "PPOCRV5ServerDetImageProcessor",
            TaskVisionProcessorPreset::RtDetr => "RTDetrImageProcessor",
            TaskVisionProcessorPreset::RfDetr => "RfDetrImageProcessor",
            TaskVisionProcessorPreset::Yolos => "YolosImageProcessor",
            TaskVisionProcessorPreset::Eomt => "EomtImageProcessor",
            TaskVisionProcessorPreset::Mask2Former => "Mask2FormerImageProcessor",
            TaskVisionProcessorPreset::MaskFormer => "MaskFormerImageProcessor",
            TaskVisionProcessorPreset::OneFormer => "OneFormerImageProcessor",
            TaskVisionProcessorPreset::Sam2 => "Sam2ImageProcessor",
            TaskVisionProcessorPreset::Sam3 => "Sam3ImageProcessor",
            TaskVisionProcessorPreset::Sapiens2 => "Sapiens2ImageProcessor",
            TaskVisionProcessorPreset::SegGpt => "SegGptImageProcessor",
            TaskVisionProcessorPreset::Segformer => "SegformerImageProcessor",
            TaskVisionProcessorPreset::VitMatte => "VitMatteImageProcessor",
            TaskVisionProcessorPreset::ChmV2 => "CHMv2ImageProcessor",
            TaskVisionProcessorPreset::Dpt => "DPTImageProcessor",
            TaskVisionProcessorPreset::DepthPro => "DepthProImageProcessor",
            TaskVisionProcessorPreset::Glpn => "GLPNImageProcessor",
            TaskVisionProcessorPreset::PromptDepthAnything => "PromptDepthAnythingImageProcessor",
            TaskVisionProcessorPreset::TipsV2Dpt => "Tipsv2DptImageProcessor",
            TaskVisionProcessorPreset::TipsV2 => "Tipsv2ImageProcessor",
            TaskVisionProcessorPreset::ZoeDepth => "ZoeDepthImageProcessor",
            TaskVisionProcessorPreset::EfficientLoFtr => "EfficientLoFTRImageProcessor",
            TaskVisionProcessorPreset::LightGlue => "LightGlueImageProcessor",
            TaskVisionProcessorPreset::SuperGlue => "SuperGlueImageProcessor",
            TaskVisionProcessorPreset::SuperPoint => "SuperPointImageProcessor",
            TaskVisionProcessorPreset::VitPose => "VitPoseImageProcessor",
        }
    }

    /// Returns the backend aliases that share this preset.
    fn class_aliases(self) -> (r: &'static [&'static str])
        ensures
            r@ == self.spec_class_aliases(),
    {
        let r: &'static [&'static str] = match self {
            TaskVisionProcessorPreset::ConditionalDetr => &["ConditionalDetrImageProcessorPil"],
            TaskVisionProcessorPreset::DeformableDetr => &["DeformableDetrImageProcessorPil"],
            TaskVisionProcessorPreset::GroundingDino => &["GroundingDinoImageProcessorPil"],
            TaskVisionProcessorPreset::OwlVit => &["OwlViTImageProcessorPil"],
            TaskVisionProcessorPreset::Owlv2 => &["Owlv2ImageProcessorPil"],
            TaskVisionProcessorPreset::PpDocLayoutV2 => &[],
            TaskVisionProcessorPreset::PpDocLayoutV3 => &[],
            TaskVisionProcessorPreset::PpOcrV5ServerDet => &[],
            TaskVisionProcessorPreset::RtDetr => &["RTDetrImageProcessorPil"],
            TaskVisionProcessorPreset::RfDetr => &[],
            TaskVisionProcessorPreset::Yolos => &["YolosImageProcessorPil"],
            TaskVisionProcessorPreset::Eomt => &["EomtImageProcessorPil"],
            TaskVisionProcessorPreset::Mask2Former => &["Mask2FormerImageProcessorPil"],
            TaskVisionProcessorPreset::MaskFormer => &["MaskFormerImageProcessorPil"],
            TaskVisionProcessorPreset::OneFormer => &["OneFormerImageProcessorPil"],
            TaskVisionProcessorPreset::Sam2 => &[],
            TaskVisionProcessorPreset::Sam3 => &[],
            TaskVisionProcessorPreset::Sapiens2 => &[],
            TaskVisionProcessorPreset::SegGpt => &["SegGptImageProcessorPil"],
            TaskVisionProcessorPreset::Segformer => &["SegformerImageProcessorPil"],
            TaskVisionProcessorPreset::VitMatte => &["VitMatteImageProcessorPil"],
            TaskVisionProcessorPreset::ChmV2 => &[],
            TaskVisionProcessorPreset::Dpt => &["DPTImageProcessorPil"],
            TaskVisionProcessorPreset::DepthPro => &[],
            TaskVisionProcessorPreset::Glpn => &["GLPNImageProcessorPil"],
            TaskVisionProcessorPreset::PromptDepthAnything => &["PromptDepthAnythingImageProcessorPil"],
            TaskVisionProcessorPreset::TipsV2Dpt => &[],
            TaskVisionProcessorPreset::TipsV2 => &[],
            TaskVisionProcessorPreset::ZoeDepth => &["ZoeDepthImageProcessorPil"],
            TaskVisionProcessorPreset::EfficientLoFtr => &["EfficientLoFTRImageProcessorPil"],
            TaskVisionProcessorPreset::LightGlue => &["LightGlueImageProcessorPil"],
            TaskVisionProcessorPreset::SuperGlue => &["SuperGlueImageProcessorPil"],
            TaskVisionProcessorPreset::SuperPoint => &["SuperPointImageProcessorPil"],
            TaskVisionProcessorPreset::VitPose => &["VitPoseImageProcessorPil"],
        };
        assert(r@ =~= self.spec_class_aliases());
        r
    }

    /// Returns the stable recipe identifier.
    pub fn recipe_id(self) -> (r: &'static str)
        ensures
            r == self.spec_recipe_id(),
    {
        match self {
            TaskVisionProcessorPreset::ConditionalDetr => "transformers.conditional_detr_image_processor",
            TaskVisionProcessorPreset::DeformableDetr => "transformers.conditional_detr_image_processor",
            TaskVisionProcessorPreset::GroundingDino => "transformers.grounding_dino_image_processor",
            TaskVisionProcessorPreset::OwlVit => "transformers.owlvit_image_processor",
            TaskVisionProcessorPreset::Owlv2 => "transformers.owlv2_image_processor",
            TaskVisionProcessorPreset::PpDocLayoutV2 => "transformers.pp_doclayout_image_processor",
            TaskVisionProcessorPreset::PpDocLayoutV3 => "transformers.pp_doclayout_image_processor",
            TaskVisionProcessorPreset::PpOcrV5ServerDet => "transformers.pp_ocr_detection_image_processor",
            TaskVisionProcessorPreset::RtDetr => "transformers.rt_detr_image_processor",
            TaskVisionProcessorPreset::RfDetr => "transformers.rf_detr_image_processor",
            TaskVisionProcessorPreset::Yolos => "transformers.yolos_image_processor",
            TaskVisionProcessorPreset::Eomt => "transformers.eomt_image_processor",
            TaskVisionProcessorPreset::Mask2Former => "transformers.maskformer_image_processor",
            TaskVisionProcessorPreset::MaskFormer => "transformers.maskformer_image_processor",
            TaskVisionProcessorPreset::OneFormer => "transformers.oneformer_image_processor",
            TaskVisionProcessorPreset::Sam2 => "transformers.sam2_image_processor",
            TaskVisionProcessorPreset::Sam3 => "transformers.sam3_image_processor",
            TaskVisionProcessorPreset::Sapiens2 => "transformers.sapiens2_image_processor",
            TaskVisionProcessorPreset::SegGpt => "transformers.seggpt_image_processor",
            TaskVisionProcessorPreset::Segformer => "transformers.segformer_image_processor",
            TaskVisionProcessorPreset::VitMatte => "transformers.vitmatte_image_processor",
            TaskVisionProcessorPreset::ChmV2 => "transformers.chmv2_image_processor",
            TaskVisionProcessorPreset::Dpt => "transformers.dpt_image_processor",
            TaskVisionProcessorPreset::DepthPro => "transformers.depth_pro_image_processor",
            TaskVisionProcessorPreset::Glpn => "transformers.glpn_image_processor",
            TaskVisionProcessorPreset::PromptDepthAnything => "transformers.dpt_image_processor",
            TaskVisionProcessorPreset::TipsV2Dpt => "transformers.tipsv2_image_processor",
            TaskVisionProcessorPreset::TipsV2 => "transformers.tipsv2_image_processor",
            TaskVisionProcessorPreset::ZoeDepth => "transformers.zoedepth_image_processor",
            TaskVisionProcessorPreset::EfficientLoFtr => "transformers.keypoint_matching_image_processor",
            TaskVisionProcessorPreset::LightGlue => "transformers.keypoint_matching_image_processor",
            TaskVisionProcessorPreset::SuperGlue => "transformers.keypoint_matching_image_processor",
            TaskVisionProcessorPreset::SuperPoint => "transformers.superpoint_image_processor",
            TaskVisionProcessorPreset::VitPose => "transformers.vitpose_image_processor",
        }
    }

    /// Whether `name` is this preset's canonical class name or one of its aliases.
    pub fn has_class_name(self, name: &str) -> (r: bool)
        ensures
            r == self.answers_to(name@),
    {
        if str_equal(self.class_name(), name) {
            return true;
        }
        let aliases = self.class_aliases();
        let mut i: usize = 0;
        while i < aliases.len()
            invariant
                aliases@ == self.spec_class_aliases(),
                i <= aliases@.len(),
                self.spec_class_name()@ != name@,
                forall|j: int| 0 <= j < i ==> (#[trigger] aliases@[j])@ != name@,
            decreases aliases@.len() - i,
        {
            if str_equal(aliases[i], name) {
                return true;
            }
            i = i + 1;
        }
        false
    }

    /// Resolves a canonical class name or alias to the first preset, in catalog order,
    /// that answers to it.
    pub fn from_class_name(class_name: &str) -> (r: Option<TaskVisionProcessorPreset>)
        ensures
            r matches Some(p) ==> p.answers_to(class_name@) && forall|j: int|
                0 <= j < p.catalog_index() ==> !(#[trigger] Self::ALL@[j]).answers_to(class_name@),
            r is None ==> forall|p: TaskVisionProcessorPreset| !p.answers_to(class_name@),
    {
        let all = Self::ALL;
        let mut i: usize = 0;
        while i < all.len()
            invariant
                all@ == Self::ALL@,
                i <= all@.len(),
                forall|j: int| 0 <= j < i ==> !(#[trigger] Self::ALL@[j]).answers_to(class_name@),
            decreases all@.len() - i,
        {
            let preset = all[i];
            if preset.has_class_name(class_name) {
                proof {
                    lemma_catalog_index(preset);
                    lemma_catalog_position(i as int);
                }
                return Some(preset);
            }
            i = i + 1;
        }
        proof {
            assert forall|p: TaskVisionProcessorPreset| !p.answers_to(class_name@) by {
                lemma_catalog_index(p);
            }
        }
        None
    }
}

/// Every preset stands at its catalog index in [`TaskVisionProcessorPreset::ALL`].
pub proof fn lemma_catalog_index(p: TaskVisionProcessorPreset)
    ensures
        0 <= p.catalog_index() < TaskVisionProcessorPreset::ALL@.len(),
        TaskVisionProcessorPreset::ALL@[p.catalog_index()] == p,
{
}

/// The preset at position `i` of the catalog has catalog index `i`.
pub proof fn lemma_catalog_position(i: int)
    requires
        0 <= i < TaskVisionProcessorPreset::ALL@.len(),
    ensures
        TaskVisionProcessorPreset::ALL@[i].catalog_index() == i,
{
}

/// Broad task family represented by a task-vision preset.
#[derive(Clone, Copy, Debug, PartialEq, Eq, Hash, Structural)]
pub enum TaskVisionProcessorFamily {
    /// Object detection, open-vocabulary detection, or document grounding.
    DetectionGrounding,
    /// Semantic, instance, panoptic, prompt-mask, or matting processing.
    Segmentation,
    /// Dense depth or image-geometry processing.
    DepthGeometry,
    /// Keypoint extraction, image matching, or pose processing.
    KeypointMatchingPose,
}

impl TaskVisionProcessorPreset {
    /// Whether this preset preprocesses image pairs.
    pub open spec fn spec_expects_pair(self) -> bool {
        self == TaskVisionProcessorPreset::EfficientLoFtr || self == TaskVisionProcessorPreset::LightGlue
            || self == TaskVisionProcessorPreset::SuperGlue
    }

    /// Returns whether this preset preprocesses image pairs.
    pub fn expects_pair(self) -> (r: bool)
        ensures
            r == self.spec_expects_pair(),
    {
        match self {
            TaskVisionProcessorPreset::EfficientLoFtr | TaskVisionProcessorPreset::LightGlue
            | TaskVisionProcessorPreset::SuperGlue => true,
            _ => false,
        }
    }
}

/// Pair presets all belong to the keypoint, matching and pose family.
pub proof fn pair_presets_are_keypoint_matching(p: TaskVisionProcessorPreset)
    requires
        p.spec_expects_pair(),
    ensures
        p.spec_family() == TaskVisionProcessorFamily::KeypointMatchingPose,
{
}

/// Color conversion applied before tensor conversion.
#[derive(Clone, Copy, Debug, PartialEq, Eq, Hash, Structural)]
pub enum TaskVisionColorMode {
    /// Preserve RGB values.
    Rgb,
    /// Convert to luminance and replicate it across three RGB channels.
    GrayscaleRgb,
}

/// Side-limit policy used by PaddleOCR detection preprocessing.
#[derive(Clone, Copy, Debug, PartialEq, Eq, Hash, Structural)]
pub enum PaddleDetectionLimit {
    /// Downscale only when the longest edge exceeds the limit.
    Max,
    /// Upscale only when the shortest edge is below the limit.
    Min,
    /// Always resize the longest edge to the limit.
    ResizeLong,
}

/// Resize geometry used by a task-vision preset.
#[allow(inconsistent_fields)]
#[derive(Clone, Copy, Debug, PartialEq, Eq, Hash, Structural)]
pub enum TaskVisionResize {
    /// Preserve decoded spatial dimensions.
    NoResize,
    /// Resize directly to a fixed size.
    Fixed {
        /// Fixed output dimensions.
        size: ImageSize,
    },
    /// Preserve aspect ratio while targeting the shortest edge.
    ShortestEdge {
        /// Target shorter edge.
        shortest_edge: usize,
        /// Optional longer-edge cap.
        longest_edge: Option<usize>,
        /// Optional divisor applied to the resolved resize dimensions.
        multiple: Option<usize>,
    },
    /// Round both axes down to a divisor.
    RoundDownToMultiple {
        /// Required axis divisor.
        multiple: usize,
    },
    /// PaddleOCR detection resize with 32-pixel rounding.
    PaddleDetection {
        /// Limit used by the selected side policy.
        limit_side_len: usize,
        /// Side-limit policy.
        limit_type: PaddleDetectionLimit,
        /// Optional post-limit maximum edge.
        max_side_limit: Option<usize>,
    },
}

/// Constant or reflected padding applied around task-vision images.
#[derive(Clone, Copy, Debug, PartialEq, Eq, Hash, Structural)]
pub enum TaskVisionPadding {
    /// Do not pad.
    NoPadding,
    /// Pad zeros on the bottom and right to an axis divisor.
    BottomRightToMultiple {
        /// Required axis divisor.
        multiple: usize,
    },
    /// Center-pad zeros to an axis divisor.
    CenterToMultiple {
        /// Required axis divisor.
        multiple: usize,
    },
    /// Pad zeros on the bottom and right to a square.
    SquareBottomRight,
    /// ZoeDepth's symmetric reflected context padding.
    ZoeReflect,
}

impl Default for TaskVisionPadding {
    fn default() -> (r: Self)
        ensures
            r == TaskVisionPadding::NoPadding,
    {
        TaskVisionPadding::NoPadding
    }
}

/// Interpretation requested from a query-mask segmentation output.
#[derive(Clone, Copy, Debug, PartialEq, Eq, Hash, Structural)]
pub enum RecipeSegmentationTask {
    /// One class label per pixel.
    Semantic,
    /// One mask per detected instance.
    Instance,
    /// Instances and stuff regions in one segment map.
    Panoptic,
}

/// Runtime options for a query-mask segmentation interpretation.
#[derive(Clone, Debug, PartialEq, Eq)]
pub struct TaskVisionSegmentationRequest {
    task: RecipeSegmentationTask,
    label_ids_to_fuse: Vec<i64>,
}

impl TaskVisionSegmentationRequest {
    /// The requested interpretation.
    pub closed spec fn spec_task(&self) -> RecipeSegmentationTask {
        self.task
    }

    /// Label ids whose panoptic instances share one segment id.
    pub closed spec fn spec_label_ids_to_fuse(&self) -> Seq<i64> {
        self.label_ids_to_fuse@
    }

    /// Creates a request for a semantic, instance or panoptic map with no fused labels.
    pub fn new(task: RecipeSegmentationTask) -> (r: TaskVisionSegmentationRequest)
        ensures
            r.spec_task() == task,
            r.spec_label_ids_to_fuse() == Seq::<i64>::empty(),
    {
        TaskVisionSegmentationRequest { task, label_ids_to_fuse: Vec::new() }
    }

    /// Creates a panoptic request with dataset-provided stuff labels to fuse.
    pub fn panoptic(label_ids_to_fuse: Vec<i64>) -> (r: TaskVisionSegmentationRequest)
        ensures
            r.spec_task() == RecipeSegmentationTask::Panoptic,
            r.spec_label_ids_to_fuse() == label_ids_to_fuse@,
    {
        TaskVisionSegmentationRequest { task: RecipeSegmentationTask::Panoptic, label_ids_to_fuse }
    }

    /// Returns the requested segmentation interpretation.
    pub fn task(&self) -> (r: RecipeSegmentationTask)
        ensures
            r == self.spec_task(),
    {
        self.task
    }

    /// Returns the label ids whose panoptic instances share one segment id.
    pub fn label_ids_to_fuse(&self) -> (r: &[i64])
        ensures
            r@ == self.spec_label_ids_to_fuse(),
    {
        self.label_ids_to_fuse.as_slice()
    }
}

} // verus!
