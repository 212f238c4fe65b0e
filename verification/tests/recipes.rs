use image_processors::families::{ClipImageProcessorConfig, VitImageProcessorConfig};
use image_processors::geometry::ImageSize;
use image_processors::layout::{ImageLayout, Layout, VideoLayout};
use image_processors::settings::ResizeMode;

#[test]
fn clip_config_uses_explicit_device_agnostic_layout() {
    let config = ClipImageProcessorConfig {
        output_layout: ImageLayout::HeightWidthChannels,
        ..Default::default()
    };
    let generic = config.image_processor_config();

    assert_eq!(
        config.output_image_layout(),
        ImageLayout::HeightWidthChannels
    );
    assert_eq!(
        config.output_video_layout(),
        VideoLayout::FramesHeightWidthChannels
    );
    assert_eq!(generic.output_layout, Layout::NHWC);
}

#[test]
fn clip_config_uses_explicit_size_and_crop_controls() {
    let config = ClipImageProcessorConfig {
        size: ImageSize {
            height: 256,
            width: 256,
        },
        crop_size: ImageSize {
            height: 224,
            width: 224,
        },
        do_center_crop: true,
        ..Default::default()
    };
    let generic = config.image_processor_config();

    assert_eq!(generic.height, Some(224));
    assert_eq!(generic.width, Some(224));
    assert_eq!(generic.resize_mode, ResizeMode::Crop);
}

#[test]
fn vit_config_can_disable_center_crop() {
    let config = VitImageProcessorConfig {
        size: ImageSize {
            height: 384,
            width: 384,
        },
        crop_size: ImageSize {
            height: 224,
            width: 224,
        },
        do_center_crop: false,
        ..Default::default()
    };
    let generic = config.image_processor_config();

    assert_eq!(generic.height, Some(384));
    assert_eq!(generic.width, Some(384));
    assert_eq!(generic.resize_mode, ResizeMode::Default);
}
