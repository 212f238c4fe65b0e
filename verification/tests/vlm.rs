use image_processors::detection::SamImageProcessorConfig;
use image_processors::errors::ImageProcessorError;
use image_processors::families::{
    Gemma3ImageProcessorConfig, Idefics3ImageProcessorConfig, MllamaImageProcessor,
    MllamaImageProcessorConfig, QwenVlImageProcessor, QwenVlImageProcessorConfig,
};

const CLIP_IMAGE_MEAN: [f32; 3] = [0.481_454_66, 0.457_827_5, 0.408_210_73];
const CLIP_IMAGE_STD: [f32; 3] = [0.268_629_55, 0.261_302_6, 0.275_777_1];
const STANDARD_IMAGE_MEAN: [f32; 3] = [0.5; 3];
const STANDARD_IMAGE_STD: [f32; 3] = [0.5; 3];
const SAM_IMAGE_MEAN: [f32; 3] = [123.675, 116.28, 103.53];
const SAM_IMAGE_STD: [f32; 3] = [58.395, 57.12, 57.375];

fn floats(bits: &[u32]) -> Vec<f32> {
    bits.iter().map(|b| f32::from_bits(*b)).collect()
}

#[test]
fn mllama_processor_rejects_disabled_required_padding() {
    let err = MllamaImageProcessor::new(MllamaImageProcessorConfig {
        do_pad: false,
        ..Default::default()
    })
    .unwrap_err();

    assert!(matches!(
        err,
        ImageProcessorError::UnsupportedProcessorOption { field: "do_pad" }
    ));
}

#[test]
fn qwen_processor_rejects_inconsistent_patch_geometry() {
    let err = QwenVlImageProcessor::new(QwenVlImageProcessorConfig {
        patch_size: 7,
        ..Default::default()
    })
    .unwrap_err();

    match err {
        ImageProcessorError::InvalidPatchGeometry {
            resize_factor,
            patch_size,
            merge_size,
        } => {
            assert_eq!(resize_factor, 28);
            assert_eq!(patch_size, 7);
            assert_eq!(merge_size, 2);
        }
        other => panic!("expected invalid patch geometry error, got {other:?}"),
    }
}

#[test]
fn qwen_config_normalizes_with_openai_clip_stats() {
    let generic = QwenVlImageProcessorConfig::default().image_processor_config();

    assert!(generic.do_rescale);
    assert!(generic.do_normalize);
    assert_eq!(floats(&generic.image_mean), CLIP_IMAGE_MEAN.to_vec());
    assert_eq!(floats(&generic.image_std), CLIP_IMAGE_STD.to_vec());
}

#[test]
fn idefics3_config_normalizes_with_standard_unit_stats() {
    let generic = Idefics3ImageProcessorConfig::default().image_processor_config();

    assert!(generic.do_rescale);
    assert!(generic.do_normalize);
    assert_eq!(floats(&generic.image_mean), STANDARD_IMAGE_MEAN.to_vec());
    assert_eq!(floats(&generic.image_std), STANDARD_IMAGE_STD.to_vec());
}

#[test]
fn gemma3_config_normalizes_with_standard_unit_stats() {
    let generic = Gemma3ImageProcessorConfig::default().image_processor_config();

    assert!(generic.do_rescale);
    assert!(generic.do_normalize);
    assert_eq!(floats(&generic.image_mean), STANDARD_IMAGE_MEAN.to_vec());
    assert_eq!(floats(&generic.image_std), STANDARD_IMAGE_STD.to_vec());
}

#[test]
fn mllama_config_normalizes_with_standard_unit_stats() {
    let generic = MllamaImageProcessorConfig::default().image_processor_config();

    assert!(generic.do_rescale);
    assert!(generic.do_normalize);
    assert_eq!(floats(&generic.image_mean), STANDARD_IMAGE_MEAN.to_vec());
    assert_eq!(floats(&generic.image_std), STANDARD_IMAGE_STD.to_vec());
}

#[test]
fn sam_config_normalizes_raw_pixels_without_rescale() {
    let generic = SamImageProcessorConfig::default().image_processor_config();

    assert!(!generic.do_rescale);
    assert!(generic.do_normalize);
    assert_eq!(floats(&generic.image_mean), SAM_IMAGE_MEAN.to_vec());
    assert_eq!(floats(&generic.image_std), SAM_IMAGE_STD.to_vec());
}
