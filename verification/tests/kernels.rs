use image_processors::detection::pad_spatial_sample;
use image_processors::diffusion::{
    blip_preprocess_options, blip_target_size, ltx2_checked_area, wan_animate_target_size, BlipImageProcessor,
    BlipImageProcessorConfig, WanAnimateImageProcessorConfig,
};
use image_processors::generic::ImageProcessorOptions;
use image_processors::media::ImageFrame;
use image_processors::vae::{validate_ldm3d_depth_size, DepthMapU16};
use image_processors::settings::{BatchExecution, ImageDecodeBackend, PixelFormat, ResizeFilter, ResizeParity};
use image_processors::diffusion::ltx2_pad_plane;
use image_processors::encoder_processor::{flip_first_three_channels, frame_stage_bytes, image_batch_shape, image_value_index, PresetProcessorError};
use image_processors::errors::{ImageProcessorError, TransformError};
use image_processors::geometry::ImageSize;
use image_processors::layout::{ImageLayout, Layout};
use image_processors::marigold::{marigold_processing_size, marigold_replicate_pad_sample, marigold_unpadded_interleaved_sample};

fn size(height: usize, width: usize) -> ImageSize {
    ImageSize { height, width }
}

#[test]
fn marigold_processing_size_scales_the_longer_edge() {
    assert_eq!(marigold_processing_size(size(480, 640), None).unwrap(), size(480, 640));
    assert_eq!(marigold_processing_size(size(480, 640), Some(0)).unwrap(), size(480, 640));
    assert_eq!(marigold_processing_size(size(480, 640), Some(768)).unwrap(), size(576, 768));
    assert_eq!(marigold_processing_size(size(100, 30), Some(10)).unwrap(), size(10, 3));
    assert_eq!(
        marigold_processing_size(size(1, 1000), Some(10)).unwrap_err(),
        ImageProcessorError::Transform(TransformError::InvalidSize { height: 0, width: 10 })
    );
    assert_eq!(
        marigold_processing_size(size(usize::MAX, 1), Some(2)).unwrap_err(),
        ImageProcessorError::Transform(TransformError::ImageSizeOverflow)
    );
}

#[test]
fn marigold_replicate_pad_repeats_last_row_and_column() {
    // One channel, 2x2 source padded to 3x3.
    let padded = marigold_replicate_pad_sample(&[1, 2, 3, 4], 1, size(2, 2), size(3, 3));
    assert_eq!(padded, vec![1, 2, 2, 3, 4, 4, 3, 4, 4]);
    // Two channels, 1x1 source padded to 1x2.
    let padded = marigold_replicate_pad_sample(&[7, 9], 2, size(1, 1), size(1, 2));
    assert_eq!(padded, vec![7, 7, 9, 9]);
}

#[test]
fn marigold_unpadded_sample_drops_padding_and_interleaves_channels() {
    // Batch of 2 samples, 2 channels, padded 2x2, unpadded 1x2.
    let values: Vec<u8> = (0..16).collect();
    let first = marigold_unpadded_interleaved_sample(&values, 0, 2, 2, size(2, 2), size(1, 2));
    assert_eq!(first, vec![0, 4, 1, 5]);
    let second = marigold_unpadded_interleaved_sample(&values, 1, 2, 2, size(2, 2), size(1, 2));
    assert_eq!(second, vec![8, 12, 9, 13]);
}

#[test]
fn ltx2_padding_reflects_when_padding_is_short() {
    // 2x3 plane padded to 3x4: bottom and right padding of one, shorter than the plane.
    let plane = [1, 2, 3, 4, 5, 6];
    let padded = ltx2_pad_plane(&plane, size(2, 3), size(3, 4));
    assert_eq!(padded, vec![1, 2, 3, 2, 4, 5, 6, 5, 1, 2, 3, 2]);
}

#[test]
fn ltx2_padding_replicates_when_padding_is_long() {
    // 1x2 plane padded to 3x2: the bottom padding is not shorter than the plane.
    let padded = ltx2_pad_plane(&[1, 2], size(1, 2), size(3, 2));
    assert_eq!(padded, vec![1, 2, 1, 2, 1, 2]);
}

#[test]
fn spatial_padding_zero_fills_in_both_layouts() {
    // Two channels of a 1x2 image, padded to 2x2.
    let chw = pad_spatial_sample(&[1, 2, 3, 4], 2, size(1, 2), size(2, 2), ImageLayout::ChannelsHeightWidth, 0);
    assert_eq!(chw, vec![1, 2, 0, 0, 3, 4, 0, 0]);
    let hwc = pad_spatial_sample(&[1, 3, 2, 4], 2, size(1, 2), size(2, 2), ImageLayout::HeightWidthChannels, 0);
    assert_eq!(hwc, vec![1, 3, 2, 4, 0, 0, 0, 0]);
    let wide = pad_spatial_sample(&[5], 1, size(1, 1), size(1, 3), ImageLayout::ChannelsHeightWidth, 9);
    assert_eq!(wide, vec![5, 9, 9]);
}

#[test]
fn image_batch_shape_reads_both_layouts() {
    assert_eq!(image_batch_shape(&[2, 3, 4, 5], Layout::NCHW).unwrap(), (2, 3, 4, 5));
    assert_eq!(image_batch_shape(&[2, 4, 5, 3], Layout::NHWC).unwrap(), (2, 3, 4, 5));
    assert!(matches!(
        image_batch_shape(&[3, 4, 5], Layout::CHW),
        Err(PresetProcessorError::Image(ImageProcessorError::UnsupportedLayout(Layout::CHW)))
    ));
    assert_eq!(image_value_index(1, 2, 3, 4, &[2, 3, 4, 5], Layout::NCHW), ((3 + 2) * 4 + 3) * 5 + 4);
    assert_eq!(image_value_index(1, 2, 3, 4, &[2, 4, 5, 3], Layout::NHWC), ((4 + 3) * 5 + 4) * 3 + 2);
}

#[test]
fn flipping_channels_swaps_red_and_blue() {
    let mut nchw = vec![1, 2, 3, 4, 5, 6];
    flip_first_three_channels(&mut nchw, &[1, 3, 1, 2], Layout::NCHW).unwrap();
    assert_eq!(nchw, vec![5, 6, 3, 4, 1, 2]);
    let mut nhwc = vec![1, 2, 3, 4, 5, 6, 7, 8];
    flip_first_three_channels(&mut nhwc, &[1, 1, 2, 4], Layout::NHWC).unwrap();
    assert_eq!(nhwc, vec![3, 2, 1, 4, 7, 6, 5, 8]);
    let mut gray = vec![1, 2];
    assert!(matches!(
        flip_first_three_channels(&mut gray, &[1, 1, 1, 2], Layout::NCHW),
        Err(PresetProcessorError::Image(ImageProcessorError::InvalidNormalizationStats { channels: 3, actual: 1 }))
    ));
    assert_eq!(gray, vec![1, 2]);
}

#[test]
fn blip_defaults_center_crop_and_lower_to_a_fixed_resize() {
    let config = BlipImageProcessorConfig::default();
    assert!(config.do_center_crop && config.do_resize);
    assert_eq!(config.size, size(384, 384));
    assert_eq!(config.resize_parity, ResizeParity::Compatibility);
    let generic = config.image_processor_config();
    assert_eq!(generic.height, Some(384));
    assert_eq!(generic.width, Some(384));
    assert_eq!(generic.resample, ResizeFilter::Bicubic);
    assert_eq!(generic.decode_backend, ImageDecodeBackend::ImageCrate);
    assert_eq!(generic.batch_execution, BatchExecution::Sequential);
    assert_eq!(generic.output_layout, Layout::NCHW);
    let processor = BlipImageProcessor::new(config.clone()).unwrap();
    assert_eq!(processor.config(), &config);
    let zero = BlipImageProcessorConfig { size: size(0, 10), ..BlipImageProcessorConfig::default() };
    assert!(matches!(
        BlipImageProcessor::new(zero),
        Err(ImageProcessorError::Transform(TransformError::InvalidSize { height: 0, width: 10 }))
    ));
}

#[test]
fn frame_stage_bytes_reorders_and_flips_channels() {
    let frame = ImageFrame::new(2, 1, PixelFormat::Rgb8, vec![1, 2, 3, 4, 5, 6]).unwrap();
    assert_eq!(frame_stage_bytes(&frame, ImageLayout::ChannelsHeightWidth, false), vec![1, 4, 2, 5, 3, 6]);
    assert_eq!(frame_stage_bytes(&frame, ImageLayout::ChannelsHeightWidth, true), vec![3, 6, 2, 5, 1, 4]);
    assert_eq!(frame_stage_bytes(&frame, ImageLayout::HeightWidthChannels, true), vec![3, 2, 1, 6, 5, 4]);
    let gray = ImageFrame::new(3, 1, PixelFormat::Luma8, vec![7, 8, 9]).unwrap();
    assert_eq!(frame_stage_bytes(&gray, ImageLayout::ChannelsHeightWidth, false), vec![7, 8, 9]);
}

#[test]
fn ldm3d_depth_must_match_the_rgb_size() {
    let depth = DepthMapU16::new(3, 2, vec![0; 6]).unwrap();
    assert!(validate_ldm3d_depth_size(&depth, size(2, 3)).is_ok());
    assert_eq!(
        validate_ldm3d_depth_size(&depth, size(3, 2)),
        Err(ImageProcessorError::Transform(TransformError::IncompatibleFrameSize {
            frame: "depth",
            expected: size(3, 2),
            actual: size(2, 3),
        }))
    );
}

#[test]
fn per_call_targets_override_configured_sizes() {
    let blip = BlipImageProcessorConfig::default();
    assert_eq!(blip_target_size(&blip, ImageProcessorOptions::default()).unwrap(), size(384, 384));
    let options = ImageProcessorOptions { height: Some(64), width: None, resize_mode: None };
    assert_eq!(blip_target_size(&blip, options).unwrap(), size(64, 384));
    let zero = ImageProcessorOptions { height: None, width: Some(0), resize_mode: None };
    assert_eq!(
        blip_target_size(&blip, zero),
        Err(ImageProcessorError::Transform(TransformError::InvalidSize { height: 384, width: 0 }))
    );
    assert_eq!(blip_preprocess_options(size(3, 4)).height, Some(3));

    let wan = WanAnimateImageProcessorConfig::default();
    let frame = ImageFrame::new(100, 70, PixelFormat::Rgb8, vec![0; 100 * 70 * 3]).unwrap();
    assert_eq!(wan_animate_target_size(&wan, &frame, ImageProcessorOptions::default()).unwrap(), size(64, 96));
    let small = ImageProcessorOptions { height: Some(10), width: None, resize_mode: None };
    assert_eq!(
        wan_animate_target_size(&wan, &frame, small),
        Err(ImageProcessorError::Transform(TransformError::InvalidSize { height: 0, width: 96 }))
    );

    assert_eq!(ltx2_checked_area(size(3, 5)).unwrap(), 15);
    assert_eq!(
        ltx2_checked_area(size(usize::MAX, 2)),
        Err(ImageProcessorError::Transform(TransformError::ImageSizeOverflow))
    );
}
