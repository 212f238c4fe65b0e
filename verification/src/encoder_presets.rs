//! Encoder and classifier presets: canonical class names, aliases and recipe ids.

use vstd::prelude::*;

use crate::text::str_equal;

verus! {

/// Transformers encoder or classifier preset supported by the shared wrapper.
#[derive(Clone, Copy, Debug, PartialEq, Eq, Hash, Structural)]
pub enum EncoderImageProcessorPreset {
    /// BEiT fixed-square preprocessing.
    Beit,
    /// BiT shortest-edge CLIP preprocessing.
    Bit,
    /// Chinese-CLIP shortest-edge CLIP preprocessing.
    ChineseClip,
    /// ConvNeXT crop-percentage preprocessing.
    ConvNext,
    /// DINOv3 ViT rescale-before-resize preprocessing.
    Dinov3Vit,
    /// DeiT resize-then-center-crop preprocessing.
    DeiT,
    /// EfficientNet preprocessing with the classification-head normalization.
    EfficientNet,
    /// FLAVA CLIP-normalized image preprocessing.
    Flava,
    /// ImageGPT preprocessing with optional color-cluster quantization.
    ImageGpt,
    /// LeViT scaled-shortest-edge preprocessing.
    Levit,
    /// MobileNetV1 shortest-edge preprocessing.
    MobileNetV1,
    /// MobileNetV2 shortest-edge preprocessing.
    MobileNetV2,
    /// MobileViT shortest-edge preprocessing with BGR output.
    MobileVit,
    /// Paddle PPLCNet divisor-aligned preprocessing with BGR output.
    PpLcNet,
    /// Perceiver crop-before-resize preprocessing.
    Perceiver,
    /// PoolFormer crop-percentage preprocessing.
    PoolFormer,
    /// PVT fixed-square preprocessing.
    Pvt,
    /// SigLIP fixed-square preprocessing.
    Siglip,
    /// A timm evaluation-transform preset.
    TimmWrapper,
}

impl EncoderImageProcessorPreset {
    /// Every encoder or classifier preset, in catalog order.
    pub const ALL: [EncoderImageProcessorPreset; 19] = [
        EncoderImageProcessorPreset::Beit,
        EncoderImageProcessorPreset::Bit,
        EncoderImageProcessorPreset::ChineseClip,
        EncoderImageProcessorPreset::ConvNext,
        EncoderImageProcessorPreset::Dinov3Vit,
        EncoderImageProcessorPreset::DeiT,
        EncoderImageProcessorPreset::EfficientNet,
        EncoderImageProcessorPreset::Flava,
        EncoderImageProcessorPreset::ImageGpt,
        EncoderImageProcessorPreset::Levit,
        EncoderImageProcessorPreset::MobileNetV1,
        EncoderImageProcessorPreset::MobileNetV2,
        EncoderImageProcessorPreset::MobileVit,
        EncoderImageProcessorPreset::PpLcNet,
        EncoderImageProcessorPreset::Perceiver,
        EncoderImageProcessorPreset::PoolFormer,
        EncoderImageProcessorPreset::Pvt,
        EncoderImageProcessorPreset::Siglip,
        EncoderImageProcessorPreset::TimmWrapper,
    ];

    /// Position of this preset in [`Self::ALL`].
    pub open spec fn catalog_index(self) -> int {
        match self {
            EncoderImageProcessorPreset::Beit => 0,
            EncoderImageProcessorPreset::Bit => 1,
            EncoderImageProcessorPreset::ChineseClip => 2,
            EncoderImageProcessorPreset::ConvNext => 3,
            EncoderImageProcessorPreset::Dinov3Vit => 4,
            EncoderImageProcessorPreset::DeiT => 5,
            EncoderImageProcessorPreset::EfficientNet => 6,
            EncoderImageProcessorPreset::Flava => 7,
            EncoderImageProcessorPreset::ImageGpt => 8,
            EncoderImageProcessorPreset::Levit => 9,
            EncoderImageProcessorPreset::MobileNetV1 => 10,
            EncoderImageProcessorPreset::MobileNetV2 => 11,
            EncoderImageProcessorPreset::MobileVit => 12,
            EncoderImageProcessorPreset::PpLcNet => 13,
            EncoderImageProcessorPreset::Perceiver => 14,
            EncoderImageProcessorPreset::PoolFormer => 15,
            EncoderImageProcessorPreset::Pvt => 16,
            EncoderImageProcessorPreset::Siglip => 17,
            EncoderImageProcessorPreset::TimmWrapper => 18,
        }
    }

    /// Canonical Transformers class name.
    pub open spec fn spec_class_name(self) -> &'static str {
        match self {
            EncoderImageProcessorPreset::Beit => "BeitImageProcessor",
            EncoderImageProcessorPreset::Bit => "BitImageProcessor",
            EncoderImageProcessorPreset::ChineseClip => "ChineseCLIPImageProcessor",
            EncoderImageProcessorPreset::ConvNext => "ConvNextImageProcessor",
            EncoderImageProcessorPreset::Dinov3Vit => "DINOv3ViTImageProcessor",
            EncoderImageProcessorPreset::DeiT => "DeiTImageProcessor",
            EncoderImageProcessorPreset::EfficientNet => "EfficientNetImageProcessor",
            EncoderImageProcessorPreset::Flava => "FlavaImageProcessor",
            EncoderImageProcessorPreset::ImageGpt => "ImageGPTImageProcessor",
            EncoderImageProcessorPreset::Levit => "LevitImageProcessor",
            EncoderImageProcessorPreset::MobileNetV1 => "MobileNetV1ImageProcessor",
            EncoderImageProcessorPreset::MobileNetV2 => "MobileNetV2ImageProcessor",
            EncoderImageProcessorPreset::MobileVit => "MobileViTImageProcessor",
            EncoderImageProcessorPreset::PpLcNet => "PPLCNetImageProcessor",
            EncoderImageProcessorPreset::Perceiver => "PerceiverImageProcessor",
            EncoderImageProcessorPreset::PoolFormer => "PoolFormerImageProcessor",
            EncoderImageProcessorPreset::Pvt => "PvtImageProcessor",
            EncoderImageProcessorPreset::Siglip => "SiglipImageProcessor",
            EncoderImageProcessorPreset::TimmWrapper => "TimmWrapperImageProcessor",
        }
    }

    /// Backend aliases that share this preset.
    pub open spec fn spec_class_aliases(self) -> Seq<&'static str> {
        match self {
            EncoderImageProcessorPreset::Beit => seq!["BeitImageProcessorPil"],
            EncoderImageProcessorPreset::Bit => seq!["BitImageProcessorPil"],
            EncoderImageProcessorPreset::ChineseClip => seq!["ChineseCLIPImageProcessorPil"],
            EncoderImageProcessorPreset::ConvNext => seq!["ConvNextImageProcessorPil"],
            EncoderImageProcessorPreset::Dinov3Vit => seq![],
            EncoderImageProcessorPreset::DeiT => seq!["DeiTImageProcessorPil"],
            EncoderImageProcessorPreset::EfficientNet => seq!["EfficientNetImageProcessorPil"],
            EncoderImageProcessorPreset::Flava => seq!["FlavaImageProcessorPil"],
            EncoderImageProcessorPreset::ImageGpt => seq!["ImageGPTImageProcessorPil"],
            EncoderImageProcessorPreset::Levit => seq!["LevitImageProcessorPil"],
            EncoderImageProcessorPreset::MobileNetV1 => seq!["MobileNetV1ImageProcessorPil"],
            EncoderImageProcessorPreset::MobileNetV2 => seq!["MobileNetV2ImageProcessorPil"],
            EncoderImageProcessorPreset::MobileVit => seq!["MobileViTImageProcessorPil"],
            EncoderImageProcessorPreset::PpLcNet => seq![],
            EncoderImageProcessorPreset::Perceiver => seq!["PerceiverImageProcessorPil"],
            EncoderImageProcessorPreset::PoolFormer => seq!["PoolFormerImageProcessorPil"],
            EncoderImageProcessorPreset::Pvt => seq!["PvtImageProcessorPil"],
            EncoderImageProcessorPreset::Siglip => seq!["SiglipImageProcessorPil"],
            EncoderImageProcessorPreset::TimmWrapper => seq![],
        }
    }

    /// Stable recipe identifier.
    pub open spec fn spec_recipe_id(self) -> &'static str {
        match self {
            EncoderImageProcessorPreset::Beit => "transformers.beit_image_processor",
            EncoderImageProcessorPreset::Bit => "transformers.bit_image_processor",
            EncoderImageProcessorPreset::ChineseClip => "transformers.chinese_clip_image_processor",
            EncoderImageProcessorPreset::ConvNext => "transformers.convnext_image_processor",
            EncoderImageProcessorPreset::Dinov3Vit => "transformers.dinov3_vit_image_processor",
            EncoderImageProcessorPreset::DeiT => "transformers.deit_image_processor",
            EncoderImageProcessorPreset::EfficientNet => "transformers.efficientnet_image_processor",
            EncoderImageProcessorPreset::Flava => "transformers.flava_image_processor",
            EncoderImageProcessorPreset::ImageGpt => "transformers.imagegpt_image_processor",
            EncoderImageProcessorPreset::Levit => "transformers.levit_image_processor",
            EncoderImageProcessorPreset::MobileNetV1 => "transformers.mobilenet_v1_image_processor",
            EncoderImageProcessorPreset::MobileNetV2 => "transformers.mobilenet_v2_image_processor",
            EncoderImageProcessorPreset::MobileVit => "transformers.mobilevit_image_processor",
            EncoderImageProcessorPreset::PpLcNet => "transformers.pp_lcnet_image_processor",
            EncoderImageProcessorPreset::Perceiver => "transformers.perceiver_image_processor",
            EncoderImageProcessorPreset::PoolFormer => "transformers.poolformer_image_processor",
            EncoderImageProcessorPreset::Pvt => "transformers.pvt_image_processor",
            EncoderImageProcessorPreset::Siglip => "transformers.siglip_image_processor",
            EncoderImageProcessorPreset::TimmWrapper => "transformers.timm_wrapper_image_processor",
        }
    }

    /// Whether `name` is this preset's canonical class name or one of its aliases.
    pub open spec fn answers_to(self, name: Seq<char>) -> bool {
        self.spec_class_name()@ == name || exists|i: int|
            0 <= i < self.spec_class_aliases().len() && (#[trigger] self.spec_class_aliases()[i])@ == name
    }

    /// Returns the canonical Transformers class name.
    pub fn class_name(self) -> (r: &'static str)
        ensures
            r == self.spec_class_name(),
    {
        match self {
            EncoderImageProcessorPreset::Beit => "BeitImageProcessor",
            EncoderImageProcessorPreset::Bit => "BitImageProcessor",
            EncoderImageProcessorPreset::ChineseClip => "ChineseCLIPImageProcessor",
            EncoderImageProcessorPreset::ConvNext => "ConvNextImageProcessor",
            EncoderImageProcessorPreset::Dinov3Vit => "DINOv3ViTImageProcessor",
            EncoderImageProcessorPreset::DeiT => "DeiTImageProcessor",
            EncoderImageProcessorPreset::EfficientNet => "EfficientNetImageProcessor",
            EncoderImageProcessorPreset::Flava => "FlavaImageProcessor",
            EncoderImageProcessorPreset::ImageGpt => "ImageGPTImageProcessor",
            EncoderImageProcessorPreset::Levit => "LevitImageProcessor",
            EncoderImageProcessorPreset::MobileNetV1 => "MobileNetV1ImageProcessor",
            EncoderImageProcessorPreset::MobileNetV2 => "MobileNetV2ImageProcessor",
            EncoderImageProcessorPreset::MobileVit => "MobileViTImageProcessor",
            EncoderImageProcessorPreset::PpLcNet => "PPLCNetImageProcessor",
            EncoderImageProcessorPreset::Perceiver => "PerceiverImageProcessor",
            EncoderImageProcessorPreset::PoolFormer => "PoolFormerImageProcessor",
            EncoderImageProcessorPreset::Pvt => "PvtImageProcessor",
            EncoderImageProcessorPreset::Siglip => "SiglipImageProcessor",
            EncoderImageProcessorPreset::TimmWrapper => "TimmWrapperImageProcessor",
        }
    }

    /// Returns the backend aliases that share this preset.
    pub fn class_aliases(self) -> (r: &'static [&'static str])
        ensures
            r@ == self.spec_class_aliases(),
    {
        let r: &'static [&'static str] = match self {
            EncoderImageProcessorPreset::Beit => &["BeitImageProcessorPil"],
            EncoderImageProcessorPreset::Bit => &["BitImageProcessorPil"],
            EncoderImageProcessorPreset::ChineseClip => &["ChineseCLIPImageProcessorPil"],
            EncoderImageProcessorPreset::ConvNext => &["ConvNextImageProcessorPil"],
            EncoderImageProcessorPreset::Dinov3Vit => &[],
            EncoderImageProcessorPreset::DeiT => &["DeiTImageProcessorPil"],
            EncoderImageProcessorPreset::EfficientNet => &["EfficientNetImageProcessorPil"],
            EncoderImageProcessorPreset::Flava => &["FlavaImageProcessorPil"],
            EncoderImageProcessorPreset::ImageGpt => &["ImageGPTImageProcessorPil"],
            EncoderImageProcessorPreset::Levit => &["LevitImageProcessorPil"],
            EncoderImageProcessorPreset::MobileNetV1 => &["MobileNetV1ImageProcessorPil"],
            EncoderImageProcessorPreset::MobileNetV2 => &["MobileNetV2ImageProcessorPil"],
            EncoderImageProcessorPreset::MobileVit => &["MobileViTImageProcessorPil"],
            EncoderImageProcessorPreset::PpLcNet => &[],
            EncoderImageProcessorPreset::Perceiver => &["PerceiverImageProcessorPil"],
            EncoderImageProcessorPreset::PoolFormer => &["PoolFormerImageProcessorPil"],
            EncoderImageProcessorPreset::Pvt => &["PvtImageProcessorPil"],
            EncoderImageProcessorPreset::Siglip => &["SiglipImageProcessorPil"],
            EncoderImageProcessorPreset::TimmWrapper => &[],
        };
        assert(r@ =~= self.spec_class_aliases());
        r
    }

    /// Returns the stable recipe identifier.
    pub fn recipe_id(self) -> (r: &'static str)
        ensures
            r == self.spec_recipe_id(),
    {
        match self {
            EncoderImageProcessorPreset::Beit => "transformers.beit_image_processor",
            EncoderImageProcessorPreset::Bit => "transformers.bit_image_processor",
            EncoderImageProcessorPreset::ChineseClip => "transformers.chinese_clip_image_processor",
            EncoderImageProcessorPreset::ConvNext => "transformers.convnext_image_processor",
            EncoderImageProcessorPreset::Dinov3Vit => "transformers.dinov3_vit_image_processor",
            EncoderImageProcessorPreset::DeiT => "transformers.deit_image_processor",
            EncoderImageProcessorPreset::EfficientNet => "transformers.efficientnet_image_processor",
            EncoderImageProcessorPreset::Flava => "transformers.flava_image_processor",
            EncoderImageProcessorPreset::ImageGpt => "transformers.imagegpt_image_processor",
            EncoderImageProcessorPreset::Levit => "transformers.levit_image_processor",
            EncoderImageProcessorPreset::MobileNetV1 => "transformers.mobilenet_v1_image_processor",
            EncoderImageProcessorPreset::MobileNetV2 => "transformers.mobilenet_v2_image_processor",
            EncoderImageProcessorPreset::MobileVit => "transformers.mobilevit_image_processor",
            EncoderImageProcessorPreset::PpLcNet => "transformers.pp_lcnet_image_processor",
            EncoderImageProcessorPreset::Perceiver => "transformers.perceiver_image_processor",
            EncoderImageProcessorPreset::PoolFormer => "transformers.poolformer_image_processor",
            EncoderImageProcessorPreset::Pvt => "transformers.pvt_image_processor",
            EncoderImageProcessorPreset::Siglip => "transformers.siglip_image_processor",
            EncoderImageProcessorPreset::TimmWrapper => "transformers.timm_wrapper_image_processor",
        }
    }

    /// Whether `name` is this preset's canonical class name or one of its aliases.
    pub fn has_class_name(self, name: &str) -> (r: bool)
        ensures
            r == self.answers_to(name@),
    {
        if str_equal(self.class_name(), name) {
            return true;
        }
        let aliases = self.class_aliases();
        let mut i: usize = 0;
        while i < aliases.len()
            invariant
                aliases@ == self.spec_class_aliases(),
                i <= aliases@.len(),
                self.spec_class_name()@ != name@,
                forall|j: int| 0 <= j < i ==> (#[trigger] aliases@[j])@ != name@,
            decreases aliases@.len() - i,
        {
            if str_equal(aliases[i], name) {
                return true;
            }
            i = i + 1;
        }
        false
    }

    /// The first preset, at catalog index `start` or later, that answers to `name`.
    pub open spec fn preset_answering_from(name: Seq<char>, start: int) -> Option<EncoderImageProcessorPreset>
        decreases Self::ALL@.len() - start,
    {
        if start < 0 || start >= Self::ALL@.len() {
            None
        } else if Self::ALL@[start].answers_to(name) {
            Some(Self::ALL@[start])
        } else {
            Self::preset_answering_from(name, start + 1)
        }
    }

    /// The first preset, in catalog order, that answers to `name`.
    pub open spec fn spec_from_class_name(name: Seq<char>) -> Option<EncoderImageProcessorPreset> {
        Self::preset_answering_from(name, 0)
    }

    /// Resolves a canonical class name or alias to the first preset, in catalog order,
    /// that answers to it.
    pub fn from_class_name(class_name: &str) -> (r: Option<EncoderImageProcessorPreset>)
        ensures
            r == Self::spec_from_class_name(class_name@),
            r matches Some(p) ==> p.answers_to(class_name@) && forall|j: int|
                0 <= j < p.catalog_index() ==> !(#[trigger] Self::ALL@[j]).answers_to(class_name@),
            r is None ==> forall|p: EncoderImageProcessorPreset| !p.answers_to(class_name@),
    {
        let all = Self::ALL;
        let mut i: usize = 0;
        while i < all.len()
            invariant
                all@ == Self::ALL@,
                i <= all@.len(),
                forall|j: int| 0 <= j < i ==> !(#[trigger] Self::ALL@[j]).answers_to(class_name@),
                Self::spec_from_class_name(class_name@) == Self::preset_answering_from(class_name@, i as int),
            decreases all@.len() - i,
        {
            let preset = all[i];
            if preset.has_class_name(class_name) {
                proof {
                    lemma_catalog_index(preset);
                    lemma_catalog_position(i as int);
                }
                return Some(preset);
            }
            i = i + 1;
        }
        proof {
            assert forall|p: EncoderImageProcessorPreset| !p.answers_to(class_name@) by {
                lemma_catalog_index(p);
            }
        }
        None
    }
}

/// Every preset stands at its catalog index in [`EncoderImageProcessorPreset::ALL`].
pub proof fn lemma_catalog_index(p: EncoderImageProcessorPreset)
    ensures
        0 <= p.catalog_index() < EncoderImageProcessorPreset::ALL@.len(),
        EncoderImageProcessorPreset::ALL@[p.catalog_index()] == p,
{
}

/// The preset at position `i` of the catalog has catalog index `i`.
pub proof fn lemma_catalog_position(i: int)
    requires
        0 <= i < EncoderImageProcessorPreset::ALL@.len(),
    ensures
        EncoderImageProcessorPreset::ALL@[i].catalog_index() == i,
{
}

/// If the preset at catalog position `k` answers to `name` and none between `start`
/// and `k` does, the search from `start` finds it.
proof fn lemma_first_answering(name: Seq<char>, start: int, k: int)
    requires
        0 <= start <= k < EncoderImageProcessorPreset::ALL@.len(),
        EncoderImageProcessorPreset::ALL@[k].answers_to(name),
        forall|j: int| start <= j < k ==> !(#[trigger] EncoderImageProcessorPreset::ALL@[j]).answers_to(name),
    ensures
        EncoderImageProcessorPreset::preset_answering_from(name, start) == Some(EncoderImageProcessorPreset::ALL@[k]),
    decreases k - start,
{
    if start < k {
        lemma_first_answering(name, start + 1, k);
    }
}

/// If no preset from catalog position `start` on answers to `name`, the search from
/// `start` finds nothing.
proof fn lemma_none_answering(name: Seq<char>, start: int)
    requires
        0 <= start,
        forall|j: int| start <= j < EncoderImageProcessorPreset::ALL@.len() ==> !(#[trigger] EncoderImageProcessorPreset::ALL@[j]).answers_to(name),
    ensures
        EncoderImageProcessorPreset::preset_answering_from(name, start) is None,
    decreases EncoderImageProcessorPreset::ALL@.len() - start,
{
    if start < EncoderImageProcessorPreset::ALL@.len() {
        lemma_none_answering(name, start + 1);
    }
}

/// No class name or alias is shared by two presets: a name that one preset answers to
/// (its class name or one of its aliases) is answered to by no other preset.
pub proof fn encoder_names_are_distinct(p: EncoderImageProcessorPreset, q: EncoderImageProcessorPreset, name: Seq<char>)
    requires
        p != q,
        p.answers_to(name),
    ensures
        !q.answers_to(name),
{
    let pa = p.spec_class_aliases();
    let qa = q.spec_class_aliases();
    assert(pa.len() <= 1 && qa.len() <= 1);
    assert(name == p.spec_class_name()@ || (pa.len() == 1 && name == pa[0]@));
        reveal_strlit("BeitImageProcessor");
        reveal_strlit("BeitImageProcessorPil");
        reveal_strlit("BitImageProcessor");
        reveal_strlit("BitImageProcessorPil");
        reveal_strlit("ChineseCLIPImageProcessor");
        reveal_strlit("ChineseCLIPImageProcessorPil");
        reveal_strlit("ConvNextImageProcessor");
        reveal_strlit("ConvNextImageProcessorPil");
        reveal_strlit("DINOv3ViTImageProcessor");
        reveal_strlit("DeiTImageProcessor");
        reveal_strlit("DeiTImageProcessorPil");
        reveal_strlit("EfficientNetImageProcessor");
        reveal_strlit("EfficientNetImageProcessorPil");
        reveal_strlit("FlavaImageProcessor");
        reveal_strlit("FlavaImageProcessorPil");
        reveal_strlit("ImageGPTImageProcessor");
        reveal_strlit("ImageGPTImageProcessorPil");
        reveal_strlit("LevitImageProcessor");
        reveal_strlit("LevitImageProcessorPil");
        reveal_strlit("MobileNetV1ImageProcessor");
        reveal_strlit("MobileNetV1ImageProcessorPil");
        reveal_strlit("MobileNetV2ImageProcessor");
        reveal_strlit("MobileNetV2ImageProcessorPil");
        reveal_strlit("MobileViTImageProcessor");
        reveal_strlit("MobileViTImageProcessorPil");
        reveal_strlit("PPLCNetImageProcessor");
        reveal_strlit("PerceiverImageProcessor");
        reveal_strlit("PerceiverImageProcessorPil");
        reveal_strlit("PoolFormerImageProcessor");
        reveal_strlit("PoolFormerImageProcessorPil");
        reveal_strlit("PvtImageProcessor");
        reveal_strlit("PvtImageProcessorPil");
        reveal_strlit("SiglipImageProcessor");
        reveal_strlit("SiglipImageProcessorPil");
        reveal_strlit("TimmWrapperImageProcessor");
    let qn = q.spec_class_name()@;
    assert(qn.len() != name.len() || qn[0] != name[0] || qn[10] != name[10]);
    assert(qa.len() == 1 ==> (qa[0]@.len() != name.len() || qa[0]@[0] != name[0] || qa[0]@[10] != name[10]));
}

/// Every preset's canonical class name, and each of its aliases, resolves back to that
/// preset through [`EncoderImageProcessorPreset::from_class_name`], whose result is
/// `spec_from_class_name` of the name; this holds because no two presets share a name.
pub proof fn encoder_names_resolve_to_their_preset(p: EncoderImageProcessorPreset)
    ensures
        EncoderImageProcessorPreset::spec_from_class_name(p.spec_class_name()@) == Some(p),
        forall|i: int| 0 <= i < p.spec_class_aliases().len() ==>
            EncoderImageProcessorPreset::spec_from_class_name((#[trigger] p.spec_class_aliases()[i])@) == Some(p),
{
    lemma_catalog_index(p);
    let k = p.catalog_index();
    let name = p.spec_class_name()@;
    assert forall|j: int| 0 <= j < k implies !(#[trigger] EncoderImageProcessorPreset::ALL@[j]).answers_to(name) by {
        lemma_catalog_position(j);
        encoder_names_are_distinct(p, EncoderImageProcessorPreset::ALL@[j], name);
    }
    lemma_first_answering(name, 0, k);
    assert forall|i: int| 0 <= i < p.spec_class_aliases().len() implies
        EncoderImageProcessorPreset::spec_from_class_name((#[trigger] p.spec_class_aliases()[i])@) == Some(p) by {
        let alias = p.spec_class_aliases()[i]@;
        assert forall|j: int| 0 <= j < k implies !(#[trigger] EncoderImageProcessorPreset::ALL@[j]).answers_to(alias) by {
            lemma_catalog_position(j);
            encoder_names_are_distinct(p, EncoderImageProcessorPreset::ALL@[j], alias);
        }
        lemma_first_answering(alias, 0, k);
    }
}

/// A name that is neither the class name nor an alias of any preset resolves to nothing.
pub proof fn unknown_names_resolve_to_none(name: Seq<char>)
    requires
        forall|q: EncoderImageProcessorPreset| !q.answers_to(name),
    ensures
        EncoderImageProcessorPreset::spec_from_class_name(name) is None,
{
    lemma_none_answering(name, 0);
}


/// For every preset of the catalog [`EncoderImageProcessorPreset::ALL`],
/// `from_class_name(class_name())` and `from_class_name(alias)` for each of its
/// `class_aliases()` give that preset.
pub proof fn every_catalog_name_resolves_to_its_preset()
    ensures
        forall|i: int| 0 <= i < EncoderImageProcessorPreset::ALL@.len() ==> {
            let p = #[trigger] EncoderImageProcessorPreset::ALL@[i];
            &&& EncoderImageProcessorPreset::spec_from_class_name(p.spec_class_name()@) == Some(p)
            &&& forall|a: int| 0 <= a < p.spec_class_aliases().len() ==>
                EncoderImageProcessorPreset::spec_from_class_name((#[trigger] p.spec_class_aliases()[a])@) == Some(p)
        },
{
    assert forall|i: int| 0 <= i < EncoderImageProcessorPreset::ALL@.len() implies {
        let p = #[trigger] EncoderImageProcessorPreset::ALL@[i];
        &&& EncoderImageProcessorPreset::spec_from_class_name(p.spec_class_name()@) == Some(p)
        &&& forall|a: int| 0 <= a < p.spec_class_aliases().len() ==>
            EncoderImageProcessorPreset::spec_from_class_name((#[trigger] p.spec_class_aliases()[a])@) == Some(p)
    } by {
        encoder_names_resolve_to_their_preset(EncoderImageProcessorPreset::ALL@[i]);
    }
}
} // verus!
