use image_processors::errors::{ImageProcessorError, MediaError, TransformError};
use image_processors::geometry::ImageSize;
use image_processors::layout::ImageLayout;
use image_processors::marigold::Padding;
use image_processors::media::ImageFrame;
use image_processors::settings::{PixelFormat, ResizeFilter, ResizeParity};
use image_processors::task_vision_config::{
    mirror_index, reverse_rgb_channels, task_zero_padding, validate_task_vision_config, TaskVisionImageProcessor, TaskVisionImageProcessorConfig,
};
use image_processors::task_vision_presets::{
    PaddleDetectionLimit, TaskVisionColorMode, TaskVisionPadding, TaskVisionProcessorPreset, TaskVisionResize,
};

fn bits(values: &[f32]) -> Vec<u32> {
    values.iter().map(|value| value.to_bits()).collect()
}

#[test]
fn task_vision_detr_defaults_emit_detection_metadata() {
    let config = TaskVisionImageProcessorConfig::for_preset(TaskVisionProcessorPreset::ConditionalDetr);
    assert_eq!(
        config.resize,
        TaskVisionResize::ShortestEdge { shortest_edge: 800, longest_edge: Some(1333), multiple: None }
    );
    assert!(config.emit_pixel_mask && config.emit_original_sizes && config.emit_reshaped_input_sizes);
    assert_eq!(config.image_mean, bits(&[0.485, 0.456, 0.406]));
    assert_eq!(config.image_std, bits(&[0.229, 0.224, 0.225]));
    assert_eq!(config.resize_parity, ResizeParity::Torchvision);
    assert_eq!(config.output_layout, ImageLayout::ChannelsHeightWidth);
    assert_eq!(config.rescale_factor, (1.0f32 / 255.0).to_bits());
}

#[test]
fn task_vision_presets_record_their_geometry_and_statistics() {
    let owlv2 = TaskVisionImageProcessorConfig::for_preset(TaskVisionProcessorPreset::Owlv2);
    assert_eq!(owlv2.resize, TaskVisionResize::Fixed { size: ImageSize { height: 960, width: 960 } });
    assert_eq!(owlv2.pre_resize_padding, TaskVisionPadding::SquareBottomRight);
    assert_eq!(owlv2.image_mean, bits(&[0.481_454_66, 0.457_827_5, 0.408_210_73]));

    let ocr = TaskVisionImageProcessorConfig::for_preset(TaskVisionProcessorPreset::PpOcrV5ServerDet);
    assert_eq!(
        ocr.resize,
        TaskVisionResize::PaddleDetection { limit_side_len: 960, limit_type: PaddleDetectionLimit::Max, max_side_limit: Some(4000) }
    );
    assert!(ocr.reverse_channels && ocr.emit_original_sizes && !ocr.emit_pixel_mask);

    let chm = TaskVisionImageProcessorConfig::for_preset(TaskVisionProcessorPreset::ChmV2);
    assert_eq!(chm.resize, TaskVisionResize::NoResize);
    assert_eq!(chm.post_resize_padding, TaskVisionPadding::CenterToMultiple { multiple: 16 });
    assert_eq!(chm.resample, ResizeFilter::Bicubic);
    assert_eq!(chm.image_mean, bits(&[0.42, 0.411, 0.296]));
    assert_eq!(chm.image_std, bits(&[0.213, 0.156, 0.143]));

    let glue = TaskVisionImageProcessorConfig::for_preset(TaskVisionProcessorPreset::LightGlue);
    assert_eq!(glue.color_mode, TaskVisionColorMode::GrayscaleRgb);
    assert!(!glue.do_normalize && glue.image_mean.is_empty() && glue.image_std.is_empty());
    let point = TaskVisionImageProcessorConfig::for_preset(TaskVisionProcessorPreset::SuperPoint);
    assert_eq!(point.color_mode, TaskVisionColorMode::Rgb);

    let layout = TaskVisionImageProcessorConfig::for_preset(TaskVisionProcessorPreset::PpDocLayoutV3);
    assert_eq!(layout.image_mean, bits(&[0.0; 3]));
    assert_eq!(layout.image_std, bits(&[1.0; 3]));

    let zoe = TaskVisionImageProcessorConfig::for_preset(TaskVisionProcessorPreset::ZoeDepth);
    assert_eq!(zoe.resize, TaskVisionResize::Fixed { size: ImageSize { height: 384, width: 512 } });
    assert_eq!(zoe.pre_resize_padding, TaskVisionPadding::ZoeReflect);
    assert_eq!(zoe.image_mean, bits(&[0.5; 3]));
}

#[test]
fn task_vision_pil_aliases_select_compatibility_resizing() {
    let pil = TaskVisionImageProcessorConfig::for_class_name("ConditionalDetrImageProcessorPil").unwrap();
    assert_eq!(pil.preset, TaskVisionProcessorPreset::ConditionalDetr);
    assert_eq!(pil.resize_parity, ResizeParity::Compatibility);
    let canonical = TaskVisionImageProcessorConfig::for_class_name("Sam2ImageProcessor").unwrap();
    assert_eq!(canonical.preset, TaskVisionProcessorPreset::Sam2);
    assert_eq!(canonical.resize_parity, ResizeParity::Torchvision);
    assert!(TaskVisionImageProcessorConfig::for_class_name("NotAProcessor").is_none());
}

#[test]
fn every_task_vision_preset_default_is_valid() {
    for preset in TaskVisionProcessorPreset::ALL {
        let config = TaskVisionImageProcessorConfig::for_preset(preset);
        assert!(validate_task_vision_config(&config).is_ok(), "{preset:?}");
        let processor = TaskVisionImageProcessor::new(config.clone()).unwrap();
        assert_eq!(processor.config(), &config);
    }
}

#[test]
fn task_vision_validation_rejects_zero_divisors_and_edges() {
    let mut config = TaskVisionImageProcessorConfig::for_preset(TaskVisionProcessorPreset::Yolos);
    config.resize = TaskVisionResize::ShortestEdge { shortest_edge: 800, longest_edge: Some(0), multiple: None };
    assert_eq!(
        validate_task_vision_config(&config),
        Err(ImageProcessorError::Transform(TransformError::InvalidScaleFactor(800)))
    );
    config.resize = TaskVisionResize::Fixed { size: ImageSize { height: 0, width: 4 } };
    assert_eq!(
        validate_task_vision_config(&config),
        Err(ImageProcessorError::Transform(TransformError::InvalidSize { height: 0, width: 4 }))
    );
    config.resize = TaskVisionResize::NoResize;
    config.post_resize_padding = TaskVisionPadding::BottomRightToMultiple { multiple: 0 };
    assert!(matches!(
        TaskVisionImageProcessor::new(config),
        Err(ImageProcessorError::Transform(TransformError::InvalidScaleFactor(0)))
    ));
}

#[test]
fn mirror_index_reflects_without_repeating_edges() {
    assert_eq!(mirror_index(2, 5), 2);
    assert_eq!(mirror_index(-1, 5), 1);
    assert_eq!(mirror_index(5, 5), 3);
    assert_eq!(mirror_index(-6, 5), 2);
    assert_eq!(mirror_index(9, 5), 1);
    assert_eq!(mirror_index(-13, 3), 1);
    assert_eq!(mirror_index(7, 1), 0);
    assert_eq!(mirror_index(-7, 0), 0);
}

#[test]
fn task_padding_reaches_the_next_multiple() {
    let size = ImageSize { height: 5, width: 10 };
    assert_eq!(
        task_zero_padding(size, TaskVisionPadding::BottomRightToMultiple { multiple: 4 }).unwrap(),
        Some(Padding { top: 0, right: 2, bottom: 3, left: 0 })
    );
    assert_eq!(
        task_zero_padding(size, TaskVisionPadding::CenterToMultiple { multiple: 4 }).unwrap(),
        Some(Padding { top: 1, right: 1, bottom: 2, left: 1 })
    );
    assert_eq!(
        task_zero_padding(size, TaskVisionPadding::SquareBottomRight).unwrap(),
        Some(Padding { top: 0, right: 0, bottom: 5, left: 0 })
    );
    assert_eq!(task_zero_padding(size, TaskVisionPadding::NoPadding).unwrap(), None);
    assert_eq!(task_zero_padding(size, TaskVisionPadding::ZoeReflect).unwrap(), None);
    assert_eq!(
        task_zero_padding(size, TaskVisionPadding::CenterToMultiple { multiple: 0 }),
        Err(ImageProcessorError::Transform(TransformError::InvalidScaleFactor(0)))
    );
    assert_eq!(
        task_zero_padding(ImageSize { height: 0, width: 3 }, TaskVisionPadding::NoPadding),
        Err(ImageProcessorError::Transform(TransformError::InvalidSize { height: 0, width: 3 }))
    );
}

#[test]
fn reversing_rgb_channels_swaps_red_and_blue_bytes() {
    let frame = ImageFrame::new(2, 1, PixelFormat::Rgb8, vec![1, 2, 3, 4, 5, 6]).unwrap();
    let reversed = reverse_rgb_channels(frame).unwrap();
    assert_eq!(reversed.data(), &[3, 2, 1, 6, 5, 4]);
    let gray = ImageFrame::new(2, 1, PixelFormat::Luma8, vec![1, 2]).unwrap();
    assert!(matches!(
        reverse_rgb_channels(gray),
        Err(ImageProcessorError::Media(MediaError::InvalidBufferLength { expected: 6, actual: 2 }))
    ));
}
