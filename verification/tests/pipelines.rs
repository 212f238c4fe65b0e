use image_processors::detection::{
    pad_batch, DetrImageProcessor, DetrImageProcessorConfig, PreparedImage, SamImageProcessor, SamImageProcessorConfig,
    DETR_RECIPE_THRESHOLD, ShortestEdgeResizeConfig,
};
use image_processors::diffusion::{Ltx2VideoHdrProcessor, Ltx2VideoHdrProcessorConfig};
use image_processors::errors::{ImageProcessorError, TransformError};
use image_processors::generic::{
    default_rescale_factor, diffusion_vae_image_mean, diffusion_vae_image_std, imagenet_mean, imagenet_std, sam_image_mean,
    sam_image_std, ImageProcessorOptions,
};
use image_processors::geometry::ImageSize;
use image_processors::layout::{to_channel_first, to_channel_last, ImageLayout, Layout, VideoLayout};
use image_processors::marigold::{marigold_batch_plan, MarigoldImageProcessor, MarigoldImageProcessorConfig, Padding};
use image_processors::recipe::{RecipeImageSizeSource, RecipePostprocess, RecipeResize, RecipeStage};
use image_processors::settings::{PixelFormat, ResizeFilter, ResizeMode, ResizeParity};
use image_processors::vae::{
    resize_depth_map, DepthMapU16, TensorValues, VaeImageProcessor, VaeImageProcessorConfig, VaeImageProcessorLdm3d,
    VaeOutputType, VaePostprocessOutput,
};

fn size(height: usize, width: usize) -> ImageSize {
    ImageSize { height, width }
}

fn prepared(height: usize, width: usize, first: u32) -> PreparedImage {
    PreparedImage {
        original_size: size(height * 10, width * 10),
        reshaped_size: size(height, width),
        channels: 1,
        values: (first..first + (height * width) as u32).collect(),
    }
}

#[test]
fn detr_recipe_resizes_rescales_and_normalizes() {
    let recipe = DetrImageProcessorConfig::default().processor_recipe();
    assert_eq!(recipe.id, "transformers.detr_image_processor");
    assert_eq!(recipe.output_layout, Layout::NCHW);
    assert_eq!(
        recipe.stages,
        vec![
            RecipeStage::ConvertPixelFormat(PixelFormat::Rgb8),
            RecipeStage::Resize(RecipeResize::ShortestEdge {
                shortest_edge: 800,
                longest_edge: Some(1333),
                filter: ResizeFilter::Bilinear,
                parity: ResizeParity::Compatibility,
            }),
            RecipeStage::Rescale(default_rescale_factor()),
            RecipeStage::Normalize { mean: imagenet_mean(), std: imagenet_std() },
        ]
    );
    assert_eq!(
        recipe.postprocess,
        vec![RecipePostprocess::ObjectDetection {
            logits: "logits",
            boxes: "pred_boxes",
            threshold: DETR_RECIPE_THRESHOLD,
            target_sizes: RecipeImageSizeSource::CallerProvided,
        }]
    );
    assert_eq!(f32::from_bits(DETR_RECIPE_THRESHOLD), 0.5);
}

#[test]
fn sam_recipe_resizes_the_longest_edge_without_rescaling() {
    let config = SamImageProcessorConfig { image_size: size(512, 768), ..SamImageProcessorConfig::default() };
    let recipe = config.processor_recipe();
    assert_eq!(recipe.id, "transformers.sam_image_processor");
    assert_eq!(
        recipe.stages,
        vec![
            RecipeStage::ConvertPixelFormat(PixelFormat::Rgb8),
            RecipeStage::Resize(RecipeResize::LongestEdge {
                longest_edge: 768,
                filter: ResizeFilter::Bilinear,
                parity: ResizeParity::Compatibility,
            }),
            RecipeStage::Normalize { mean: sam_image_mean(), std: sam_image_std() },
        ]
    );
    assert_eq!(
        recipe.postprocess,
        vec![RecipePostprocess::BinaryMasks {
            masks: "pred_masks",
            original_sizes: RecipeImageSizeSource::OriginalSizes,
            reshaped_input_sizes: RecipeImageSizeSource::ReshapedInputSizes,
            threshold: 0,
        }]
    );
}

#[test]
fn vae_recipe_follows_the_enabled_stages() {
    let recipe = VaeImageProcessorConfig::default().processor_recipe();
    assert_eq!(recipe.id, "diffusers.vae_image_processor");
    assert_eq!(
        recipe.stages,
        vec![
            RecipeStage::Resize(RecipeResize::Dynamic {
                mode: ResizeMode::Default,
                filter: ResizeFilter::Lanczos,
                parity: ResizeParity::Compatibility,
            }),
            RecipeStage::Rescale(default_rescale_factor()),
            RecipeStage::Normalize { mean: diffusion_vae_image_mean(), std: diffusion_vae_image_std() },
        ]
    );
    assert!(recipe.postprocess.is_empty());
    let mask = VaeImageProcessorConfig {
        pixel_format: Some(PixelFormat::Luma8),
        do_resize: false,
        do_normalize: false,
        do_binarize: true,
        ..VaeImageProcessorConfig::default()
    }
    .processor_recipe();
    assert_eq!(
        mask.stages,
        vec![
            RecipeStage::ConvertPixelFormat(PixelFormat::Luma8),
            RecipeStage::Rescale(default_rescale_factor()),
            RecipeStage::Binarize,
        ]
    );
}

#[test]
fn detr_output_pads_to_the_largest_image_and_masks_padding() {
    let processor = DetrImageProcessor::new(DetrImageProcessorConfig::default()).unwrap();
    let output = processor.preprocess_images_output(&[prepared(2, 3, 1), prepared(3, 2, 10)]).unwrap();
    assert_eq!(output.pixel_values_shape, vec![2, 1, 3, 3]);
    assert_eq!(output.pixel_values, vec![1, 2, 3, 4, 5, 6, 0, 0, 0, 10, 11, 0, 12, 13, 0, 14, 15, 0]);
    assert_eq!(output.pixel_mask.unwrap(), vec![1, 1, 1, 1, 1, 1, 0, 0, 0, 1, 1, 0, 1, 1, 0, 1, 1, 0]);
    assert_eq!(output.original_sizes, vec![size(20, 30), size(30, 20)]);
    assert_eq!(output.reshaped_input_sizes, vec![size(2, 3), size(3, 2)]);
}

#[test]
fn detr_output_rounds_the_padding_target_and_rejects_small_pads() {
    let processor = DetrImageProcessor::new(DetrImageProcessorConfig { pad_to_multiple: Some(4), ..DetrImageProcessorConfig::default() }).unwrap();
    let output = processor.preprocess_image_output(prepared(2, 3, 1)).unwrap();
    assert_eq!(output.pixel_values_shape, vec![1, 1, 4, 4]);
    let small = DetrImageProcessor::new(DetrImageProcessorConfig {
        image_size: size(8, 8),
        resize_size: ShortestEdgeResizeConfig { shortest_edge: 4, longest_edge: None },
        pad_size: Some(size(4, 4)),
        ..DetrImageProcessorConfig::default()
    })
    .unwrap();
    assert_eq!(
        small.preprocess_image_output(prepared(4, 8, 0)).unwrap_err(),
        ImageProcessorError::InvalidPaddingTarget { target_size: size(4, 4), image_size: size(4, 8) }
    );
    assert_eq!(processor.preprocess_images_output(&[]).unwrap_err(), ImageProcessorError::EmptyBatch);
}

#[test]
fn detr_output_without_padding_stacks_equal_images() {
    let processor = DetrImageProcessor::new(DetrImageProcessorConfig { do_pad: false, ..DetrImageProcessorConfig::default() }).unwrap();
    let output = processor.preprocess_images_output(&[prepared(1, 2, 1), prepared(1, 2, 5)]).unwrap();
    assert_eq!(output.pixel_values, vec![1, 2, 5, 6]);
    assert_eq!(output.pixel_mask.unwrap(), vec![1, 1, 1, 1]);
    assert_eq!(
        processor.preprocess_images_output(&[prepared(1, 2, 1), prepared(2, 1, 5)]).unwrap_err(),
        ImageProcessorError::IncompatibleBatchShapes
    );
}

#[test]
fn sam_output_pads_every_image_to_the_configured_size() {
    let processor = SamImageProcessor::new(SamImageProcessorConfig {
        image_size: size(2, 2),
        output_layout: ImageLayout::HeightWidthChannels,
        ..SamImageProcessorConfig::default()
    })
    .unwrap();
    let output = processor.preprocess_image_output(prepared(1, 2, 7)).unwrap();
    assert_eq!(output.pixel_values_shape, vec![1, 2, 2, 1]);
    assert_eq!(output.pixel_values, vec![7, 8, 0, 0]);
    assert!(output.pixel_mask.is_none());
    assert_eq!(
        processor.preprocess_image_output(prepared(3, 1, 0)).unwrap_err(),
        ImageProcessorError::InvalidPaddingTarget { target_size: size(2, 2), image_size: size(3, 1) }
    );
}

#[test]
fn pad_batch_rejects_mixed_channel_counts() {
    let mut two = prepared(1, 1, 0);
    two.channels = 2;
    two.values = vec![1, 2];
    assert_eq!(
        pad_batch(&[prepared(1, 1, 0), two], size(1, 1), ImageLayout::ChannelsHeightWidth).unwrap_err(),
        ImageProcessorError::IncompatibleBatchShapes
    );
}

#[test]
fn resize_depth_map_rejects_an_empty_target() {
    let depth = DepthMapU16::new(1, 1, vec![7]).unwrap();
    assert_eq!(
        resize_depth_map(&depth, size(0, 3), ResizeFilter::Nearest).unwrap_err(),
        ImageProcessorError::Transform(TransformError::InvalidSize { height: 0, width: 3 })
    );
}

#[test]
fn prepare_depth_maps_without_resize_reports_the_first_mismatch() {
    let config = VaeImageProcessorConfig { do_resize: false, ..VaeImageProcessorConfig::default() };
    let processor = VaeImageProcessorLdm3d::new(config).unwrap();
    let maps = vec![
        DepthMapU16::new(2, 2, vec![0; 4]).unwrap(),
        DepthMapU16::new(1, 2, vec![0; 2]).unwrap(),
        DepthMapU16::new(3, 3, vec![0; 9]).unwrap(),
    ];
    assert_eq!(
        processor.prepare_depth_maps(&maps, size(2, 2)).unwrap_err(),
        ImageProcessorError::Transform(TransformError::IncompatibleFrameSize {
            frame: "depth",
            expected: size(2, 2),
            actual: size(2, 1),
        })
    );
}

#[test]
fn to_channel_last_interleaves_planes() {
    // One item, two channels, plane of three.
    assert_eq!(to_channel_last(&[1, 2, 3, 10, 20, 30], 1, 2, 3), vec![1, 10, 2, 20, 3, 30]);
}

fn nchw_tensor() -> TensorValues {
    // Two samples, one channel, 1x2 planes.
    TensorValues { values: vec![1, 2, 3, 4], shape: vec![2, 1, 1, 2], layout: Layout::NCHW }
}

#[test]
fn vae_postprocess_keeps_latents_and_selects_denormalized_samples() {
    let processor = VaeImageProcessor::new(VaeImageProcessorConfig::default()).unwrap();
    let mapped = [11, 12, 13, 14];
    let latent = processor.postprocess(&nchw_tensor(), VaeOutputType::Latent, None, &mapped).unwrap();
    assert_eq!(latent, VaePostprocessOutput::Tensor(nchw_tensor()));
    let all = processor.postprocess(&nchw_tensor(), VaeOutputType::Tensor, None, &mapped).unwrap();
    assert_eq!(all, VaePostprocessOutput::Tensor(TensorValues { values: vec![11, 12, 13, 14], ..nchw_tensor() }));
    let mixed = processor.postprocess(&nchw_tensor(), VaeOutputType::Tensor, Some(&[false, true]), &mapped).unwrap();
    assert_eq!(mixed, VaePostprocessOutput::Tensor(TensorValues { values: vec![1, 2, 13, 14], ..nchw_tensor() }));
    assert_eq!(
        processor.postprocess(&nchw_tensor(), VaeOutputType::Tensor, Some(&[true]), &mapped).unwrap_err(),
        ImageProcessorError::InvalidDenormalizeFlags { expected: 2, actual: 1 }
    );
}

#[test]
fn vae_postprocess_array_is_channel_last() {
    let processor = VaeImageProcessor::new(VaeImageProcessorConfig::default()).unwrap();
    let tensor = TensorValues { values: vec![1, 2, 3, 4], shape: vec![1, 2, 1, 2], layout: Layout::NCHW };
    let out = processor.postprocess(&tensor, VaeOutputType::Array, Some(&[false]), &[0; 4]).unwrap();
    assert_eq!(
        out,
        VaePostprocessOutput::Tensor(TensorValues { values: vec![1, 3, 2, 4], shape: vec![1, 1, 2, 2], layout: Layout::NHWC })
    );
    let unsupported = TensorValues { values: vec![1, 2], shape: vec![1, 2], layout: Layout::NC };
    assert_eq!(
        processor.postprocess(&unsupported, VaeOutputType::Array, None, &[0, 0]).unwrap_err(),
        ImageProcessorError::UnsupportedLayout(Layout::NC)
    );
}

#[test]
fn ldm3d_postprocess_returns_channel_last_dims() {
    let processor = VaeImageProcessorLdm3d::new(VaeImageProcessorConfig { do_normalize: false, ..VaeImageProcessorConfig::default() }).unwrap();
    let tensor = TensorValues { values: (0..8).collect(), shape: vec![1, 4, 1, 2], layout: Layout::NCHW };
    let (out, dims) = processor.postprocess(&tensor, None, &[0; 8]).unwrap();
    assert_eq!(dims, (1, 1, 2, 4));
    assert_eq!(out.values, vec![0, 2, 4, 6, 1, 3, 5, 7]);
    let video = TensorValues { values: vec![0; 8], shape: vec![1, 1, 2, 2, 2], layout: Layout::BFCHW };
    assert_eq!(processor.postprocess(&video, None, &[0; 8]).unwrap_err(), ImageProcessorError::UnsupportedLayout(Layout::BFHWC));
}

#[test]
fn ldm3d_depth_batch_stacks_prepared_maps() {
    let config = VaeImageProcessorConfig { resample: ResizeFilter::Nearest, output_layout: ImageLayout::HeightWidthChannels, ..VaeImageProcessorConfig::default() };
    let processor = VaeImageProcessorLdm3d::new(config).unwrap();
    let maps = vec![DepthMapU16::new(1, 1, vec![9]).unwrap(), DepthMapU16::new(2, 2, vec![1, 2, 3, 4]).unwrap()];
    let (values, shape) = processor.depth_batch(&maps, size(2, 2)).unwrap();
    assert_eq!(values, vec![9, 9, 9, 9, 1, 2, 3, 4]);
    assert_eq!(shape, vec![2, 2, 2, 1]);
    let (target, _, shape) = processor
        .preprocess_batch_depth(&[size(20, 20), size(20, 20)], &maps, ImageProcessorOptions::default())
        .unwrap();
    assert_eq!(target, size(16, 16));
    assert_eq!(shape, vec![2, 16, 16, 1]);
    assert_eq!(
        processor.preprocess_batch_depth(&[size(20, 20)], &maps, ImageProcessorOptions::default()).unwrap_err(),
        ImageProcessorError::IncompatibleBatchShapes
    );
}

#[test]
fn ltx2_reference_frames_pad_each_plane() {
    let processor = Ltx2VideoHdrProcessor::new(Ltx2VideoHdrProcessorConfig::default()).unwrap();
    // One frame, one channel, 2x2 resized plane padded to 3x3 by reflection.
    let out = processor.pad_reference_frames(1, 1, size(4, 4), size(2, 2), size(3, 3), &[1, 2, 3, 4]).unwrap();
    assert_eq!(out.layout, Layout::NCHW);
    assert_eq!(out.shape, vec![1, 1, 3, 3]);
    assert_eq!(out.values, vec![1, 2, 1, 3, 4, 3, 1, 2, 1]);
    let last = Ltx2VideoHdrProcessor::new(Ltx2VideoHdrProcessorConfig {
        output_layout: VideoLayout::FramesHeightWidthChannels,
        ..Ltx2VideoHdrProcessorConfig::default()
    })
    .unwrap();
    let out = last.pad_reference_frames(1, 2, size(1, 1), size(1, 1), size(1, 2), &[5, 6]).unwrap();
    assert_eq!(out.shape, vec![1, 1, 2, 2]);
    assert_eq!(out.values, vec![5, 6, 5, 6]);
    assert_eq!(
        processor.pad_reference_frames(0, 1, size(4, 4), size(2, 2), size(3, 3), &[]).unwrap_err(),
        ImageProcessorError::EmptyBatch
    );
    assert_eq!(
        processor.pad_reference_frames(1, 1, size(4, 4), size(4, 4), size(3, 3), &[0; 16]).unwrap_err(),
        ImageProcessorError::InvalidPaddingTarget { target_size: size(3, 3), image_size: size(4, 4) }
    );
}

#[test]
fn marigold_assembles_replicate_padded_batches() {
    let processor = MarigoldImageProcessor::new(MarigoldImageProcessorConfig { vae_scale_factor: 2, ..MarigoldImageProcessorConfig::default() }).unwrap();
    let plan = marigold_batch_plan(&[size(1, 1)], None, 2).unwrap();
    let output = processor.assemble_batch(plan, &[vec![1, 2, 3]]);
    assert_eq!(output.padding(), Padding { top: 0, right: 1, bottom: 1, left: 0 });
    assert_eq!(output.pixel_values().shape, vec![1, 3, 2, 2]);
    assert_eq!(output.pixel_values().values, vec![1, 1, 1, 1, 2, 2, 2, 2, 3, 3, 3, 3]);
}

#[test]
fn to_channel_first_undoes_channel_last() {
    let planar = [1, 2, 3, 10, 20, 30];
    assert_eq!(to_channel_first(&to_channel_last(&planar, 1, 2, 3), 1, 2, 3), planar.to_vec());
}

#[test]
fn marigold_unpads_dense_outputs_of_any_layout() {
    let processor = MarigoldImageProcessor::new(MarigoldImageProcessorConfig::default()).unwrap();
    // One sample, two channels, 2x2 planes stored channel-last; one padded row.
    let tensor = TensorValues { values: vec![1, 10, 2, 20, 3, 30, 4, 40], shape: vec![1, 2, 2, 2], layout: Layout::NHWC };
    let padding = Padding { top: 0, right: 0, bottom: 1, left: 0 };
    let (size_left, samples) = processor.unpadded_dense_samples(&tensor, 2, padding).unwrap();
    assert_eq!(size_left, size(1, 2));
    assert_eq!(samples, vec![vec![1, 10, 2, 20]]);
    assert_eq!(
        processor.unpadded_dense_samples(&tensor, 3, padding).unwrap_err(),
        ImageProcessorError::Transform(TransformError::InvalidChannelDataLength { channels: 3, actual: 2 })
    );
    let flat = TensorValues { values: vec![0; 2], shape: vec![1, 2], layout: Layout::NC };
    assert_eq!(processor.unpadded_dense_samples(&flat, 1, padding).unwrap_err(), ImageProcessorError::UnsupportedLayout(Layout::NC));
}
