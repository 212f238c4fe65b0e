use image_processors::encoder_presets::EncoderImageProcessorPreset;
use image_processors::encoder_processor::{
    EncoderGeometry, EncoderImageProcessor, EncoderImageProcessorConfig, PresetProcessorError, Swin2SrImageProcessor,
    Swin2SrImageProcessorConfig,
};
use image_processors::geometry::ImageSize;
use image_processors::hf_config::{ProcessorConfigError, ProcessorFamilyConfig};
use image_processors::settings::ResizeParity;

#[test]
fn encoder_presets_record_their_geometry() {
    let deit = EncoderImageProcessorConfig::for_preset(EncoderImageProcessorPreset::DeiT);
    assert_eq!(
        deit.geometry,
        EncoderGeometry::FixedThenCenterCrop {
            size: ImageSize { height: 256, width: 256 },
            crop_size: ImageSize { height: 224, width: 224 },
        }
    );
    assert_eq!(deit.resize_parity, ResizeParity::Torchvision);
    let levit = EncoderImageProcessorConfig::for_preset(EncoderImageProcessorPreset::Levit);
    assert_eq!(
        levit.geometry,
        EncoderGeometry::ScaledShortestEdgeThenCenterCrop {
            shortest_edge: 224,
            scale_numerator: 256,
            scale_denominator: 224,
            crop_size: ImageSize { height: 224, width: 224 },
        }
    );
    assert_eq!(levit.image_mean, vec![0.485f32.to_bits(), 0.456f32.to_bits(), 0.406f32.to_bits()]);
    let gpt = EncoderImageProcessorConfig::for_preset(EncoderImageProcessorPreset::ImageGpt);
    assert!(gpt.do_color_quantize && gpt.color_clusters.is_none());
}

#[test]
fn encoder_class_names_select_presets_and_resize_parity() {
    let canonical = EncoderImageProcessorConfig::for_class_name("BeitImageProcessor").unwrap();
    assert_eq!(canonical.preset, EncoderImageProcessorPreset::Beit);
    assert_eq!(canonical.resize_parity, ResizeParity::Torchvision);
    assert!(EncoderImageProcessorConfig::for_class_name("NotAProcessor").is_none());
    assert!(matches!(
        EncoderImageProcessor::for_class_name("NotAProcessor"),
        Err(PresetProcessorError::UnsupportedClassName(name)) if name == "NotAProcessor"
    ));
    for preset in EncoderImageProcessorPreset::ALL {
        let processor = EncoderImageProcessor::for_preset(preset).unwrap();
        assert_eq!(processor.config().preset, preset);
        let by_name = EncoderImageProcessorConfig::for_class_name(preset.class_name()).unwrap();
        assert_eq!(by_name.preset, preset);
    }
}

#[test]
fn encoder_processors_reject_non_finite_color_clusters() {
    let mut config = EncoderImageProcessorConfig::for_preset(EncoderImageProcessorPreset::ImageGpt);
    config.color_clusters = Some(vec![[0, 0, 0], [f32::INFINITY.to_bits(), 0, 0]]);
    assert!(matches!(
        EncoderImageProcessor::new(config),
        Err(PresetProcessorError::NonFiniteColorCluster { cluster: 1, component: 0 })
    ));
}

#[test]
fn swin2sr_defaults_pad_to_multiples_of_eight() {
    let config = Swin2SrImageProcessorConfig::default();
    assert_eq!(config.size_divisor, 8);
    let processor = Swin2SrImageProcessor::new(config).unwrap();
    assert_eq!(processor.config().size_divisor, 8);
}

#[test]
fn hf_config_rejects_invalid_json_documents() {
    assert_eq!(
        ProcessorFamilyConfig::from_hf_preprocessor_json("{not json").unwrap_err(),
        ProcessorConfigError::InvalidJson
    );
    assert_eq!(
        ProcessorFamilyConfig::from_hf_preprocessor_json("[1, 2]").unwrap_err(),
        ProcessorConfigError::InvalidJson
    );
}
