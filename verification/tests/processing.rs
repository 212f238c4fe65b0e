use image_processors::detection::{copy_range, detr_detection_samples, sam_mask_samples};
use image_processors::diffusion::{joy_image_source_size, hunyuan_video_15_bucket_size, hunyuan_video_15_bucket_walk, ltx2_pad_plan, Ltx2PadPlan};
use image_processors::encoder_presets::EncoderImageProcessorPreset;
use image_processors::encoder_processor::{
    encoder_geometry_plan, EncoderGeometry, EncoderGeometryPlan, EncoderRecipeStage, EncoderResizeStep,
    PresetProcessorError,
};
use image_processors::errors::{ImageProcessorError, TensorError, TransformError};
use image_processors::geometry::{full_pixel_mask, ImageSize};
use image_processors::layout::Layout;
use image_processors::marigold::{marigold_batch_plan, marigold_uncertainty_channels, marigold_unpadded_samples, MarigoldBatchPlan, Padding};
use image_processors::multimodal_arrays::{tiled_outputs, MultimodalArray, MultimodalArrayData, F32_ONE};
use image_processors::multimodal_pixels::{generic_pixel_config, pixel_route, pixel_spec, PixelRoute};
use image_processors::multimodal_presets::{multimodal_presets, MultimodalProcessorError, MultimodalResizeBackend};
use image_processors::settings::{BatchExecution, ImageDecodeBackend, PixelFormat, ResizeFilter, ResizeMode, ResizeParity};
use image_processors::generic::ImageProcessorOptions;
use image_processors::vae::{
    ldm3d_output_dims,
    ldm3d_depth_from_bytes, ldm3d_split_sample, resize_depth_map, select_per_sample, DepthMapU16,
    VaeImageProcessorConfig, VaeImageProcessorLdm3d,
};

fn size(height: usize, width: usize) -> ImageSize {
    ImageSize { height, width }
}

#[test]
fn resize_depth_map_keeps_a_map_of_the_target_size() {
    let depth = DepthMapU16::new(2, 3, vec![1, 2, 3, 4, 5, 6]).unwrap();
    let resized = resize_depth_map(&depth, size(3, 2), ResizeFilter::Lanczos).unwrap();
    assert_eq!(resized.data(), &[1, 2, 3, 4, 5, 6]);
    assert_eq!(resized.size(), size(3, 2));
}

#[test]
fn resize_depth_map_resamples_to_the_target() {
    let depth = DepthMapU16::new(2, 2, vec![10, 20, 30, 40]).unwrap();
    let resized = resize_depth_map(&depth, size(4, 4), ResizeFilter::Nearest).unwrap();
    assert_eq!(resized.size(), size(4, 4));
    assert_eq!(
        resized.data(),
        &[10, 10, 20, 20, 10, 10, 20, 20, 30, 30, 40, 40, 30, 30, 40, 40]
    );
}

#[test]
fn resize_depth_map_rejects_a_target_wider_than_u32() {
    let depth = DepthMapU16::new(1, 1, vec![7]).unwrap();
    let too_wide = u32::MAX as usize + 1;
    let err = resize_depth_map(&depth, size(1, too_wide), ResizeFilter::Nearest).unwrap_err();
    assert_eq!(
        err,
        ImageProcessorError::Transform(TransformError::DimensionTooLarge {
            dimension: "target width",
            value: too_wide,
            max: u32::MAX as usize,
        })
    );
}

#[test]
fn prepare_depth_maps_resizes_with_the_configured_filter() {
    let config = VaeImageProcessorConfig { resample: ResizeFilter::Nearest, ..VaeImageProcessorConfig::default() };
    let processor = VaeImageProcessorLdm3d::new(config).unwrap();
    let maps = vec![
        DepthMapU16::new(1, 1, vec![5]).unwrap(),
        DepthMapU16::new(2, 2, vec![1, 2, 3, 4]).unwrap(),
    ];
    let prepared = processor.prepare_depth_maps(&maps, size(2, 2)).unwrap();
    assert_eq!(prepared.len(), 2);
    assert_eq!(prepared[0].data(), &[5, 5, 5, 5]);
    assert_eq!(prepared[1].data(), &[1, 2, 3, 4]);
}

#[test]
fn prepare_depth_maps_reports_the_first_unresizable_map() {
    let processor = VaeImageProcessorLdm3d::new(VaeImageProcessorConfig::default()).unwrap();
    let maps = vec![DepthMapU16::new(1, 1, vec![5]).unwrap()];
    let too_tall = u32::MAX as usize + 1;
    let err = processor.prepare_depth_maps(&maps, size(too_tall, 1)).unwrap_err();
    assert_eq!(
        err,
        ImageProcessorError::Transform(TransformError::DimensionTooLarge {
            dimension: "target height",
            value: too_tall,
            max: u32::MAX as usize,
        })
    );
}

#[test]
fn every_encoder_name_and_alias_resolves_to_its_preset() {
    for preset in EncoderImageProcessorPreset::ALL {
        assert_eq!(EncoderImageProcessorPreset::from_class_name(preset.class_name()), Some(preset));
        for alias in preset.class_aliases() {
            assert_eq!(EncoderImageProcessorPreset::from_class_name(alias), Some(preset));
        }
    }
    assert_eq!(EncoderImageProcessorPreset::from_class_name("UnknownImageProcessor"), None);
}

#[test]
fn every_catalog_multimodal_preset_builds_its_recipe() {
    for preset in multimodal_presets() {
        let recipe = preset.processor_recipe().unwrap();
        assert_eq!(recipe.id(), format!("transformers.{}_image_processor", preset.model_type()));
        assert!(recipe.output_edge() > 0);
        assert!(recipe.minimum_input_edge() <= recipe.audited_input_edge());
        if let Some(patch) = recipe.patch_size() {
            assert_eq!(recipe.output_edge() % patch, 0);
        }
    }
}

#[test]
fn encoder_geometry_plan_describes_each_geometry() {
    let image = size(300, 400);
    assert_eq!(
        encoder_geometry_plan(EncoderGeometry::FixedThenCenterCrop { size: size(256, 256), crop_size: size(224, 224) }, image)
            .unwrap(),
        EncoderGeometryPlan {
            crop_before_resize: None,
            resize: EncoderResizeStep::Exact(size(256, 256)),
            crop_after_resize: Some(size(224, 224)),
        }
    );
    assert_eq!(
        encoder_geometry_plan(
            EncoderGeometry::ScaledShortestEdgeThenCenterCrop {
                shortest_edge: 224,
                scale_numerator: 256,
                scale_denominator: 224,
                crop_size: size(224, 224),
            },
            image,
        )
        .unwrap()
        .resize,
        EncoderResizeStep::ShortestEdge(256)
    );
    assert_eq!(
        encoder_geometry_plan(
            EncoderGeometry::PerceiverCropThenResize { size: size(224, 224), crop_reference: size(256, 256) },
            image,
        )
        .unwrap(),
        EncoderGeometryPlan {
            crop_before_resize: Some(size(262, 262)),
            resize: EncoderResizeStep::Exact(size(224, 224)),
            crop_after_resize: None,
        }
    );
    let crop_percentage = 0.875f64.to_bits();
    assert_eq!(
        encoder_geometry_plan(
            EncoderGeometry::CropPercentage { output_edge: 224, crop_percentage, warp_at_or_above: Some(384) },
            image,
        )
        .unwrap(),
        EncoderGeometryPlan {
            crop_before_resize: None,
            resize: EncoderResizeStep::ShortestEdgeOverCropPercentage { output_edge: 224, crop_percentage },
            crop_after_resize: Some(size(224, 224)),
        }
    );
    assert_eq!(
        encoder_geometry_plan(
            EncoderGeometry::CropPercentage { output_edge: 384, crop_percentage, warp_at_or_above: Some(384) },
            image,
        )
        .unwrap()
        .resize,
        EncoderResizeStep::Exact(size(384, 384))
    );
}

#[test]
fn encoder_geometry_plan_reports_each_error() {
    let image = size(300, 400);
    assert_eq!(
        encoder_geometry_plan(
            EncoderGeometry::ScaledShortestEdgeThenCenterCrop {
                shortest_edge: 224,
                scale_numerator: 256,
                scale_denominator: 0,
                crop_size: size(224, 224),
            },
            image,
        )
        .unwrap_err(),
        PresetProcessorError::Transform(TransformError::InvalidScaleFactor(0))
    );
    assert_eq!(
        encoder_geometry_plan(
            EncoderGeometry::ScaledShortestEdgeThenCenterCrop {
                shortest_edge: usize::MAX,
                scale_numerator: 2,
                scale_denominator: 1,
                crop_size: size(224, 224),
            },
            image,
        )
        .unwrap_err(),
        PresetProcessorError::Transform(TransformError::ImageSizeOverflow)
    );
    for bad in [0.0f64, -1.0, f64::NAN, f64::INFINITY] {
        assert_eq!(
            encoder_geometry_plan(
                EncoderGeometry::CropPercentage { output_edge: 224, crop_percentage: bad.to_bits(), warp_at_or_above: None },
                image,
            )
            .unwrap_err(),
            PresetProcessorError::InvalidCropPercentage(bad.to_bits())
        );
    }
    assert_eq!(
        encoder_geometry_plan(
            EncoderGeometry::PaddleShortestEdgeThenCenterCrop { shortest_edge: 224, size_divisor: 0, crop_size: size(224, 224) },
            image,
        )
        .unwrap_err(),
        PresetProcessorError::InvalidSizeDivisor
    );
}

#[test]
fn encoder_recipe_stages_record_resize_then_crop() {
    let stages = EncoderGeometry::ShortestEdgeThenCenterCrop { shortest_edge: 256, crop_size: size(224, 224) }
        .recipe_stages(ResizeFilter::Bicubic, ResizeParity::Torchvision);
    assert_eq!(
        stages,
        vec![
            EncoderRecipeStage::ResizeShortestEdge {
                shortest_edge: 256,
                filter: ResizeFilter::Bicubic,
                parity: ResizeParity::Torchvision,
            },
            EncoderRecipeStage::CenterCrop(size(224, 224)),
        ]
    );
    let scaled = EncoderGeometry::ScaledShortestEdgeThenCenterCrop {
        shortest_edge: 224,
        scale_numerator: 256,
        scale_denominator: 0,
        crop_size: size(224, 224),
    }
    .recipe_stages(ResizeFilter::Bicubic, ResizeParity::Torchvision);
    assert_eq!(
        scaled[0],
        EncoderRecipeStage::ResizeShortestEdge { shortest_edge: 0, filter: ResizeFilter::Bicubic, parity: ResizeParity::Torchvision }
    );
}

#[test]
fn sam_mask_samples_split_images_and_masks() {
    let logits: Vec<u32> = (0..16).collect();
    let samples = sam_mask_samples(&logits, size(2, 2), 2, &[size(10, 20), size(30, 40)], &[size(5, 10), size(6, 8)]).unwrap();
    assert_eq!(samples.len(), 2);
    assert_eq!(samples[0].original_size, size(10, 20));
    assert_eq!(samples[1].reshaped_input_size, size(6, 8));
    assert_eq!(samples[0].mask_logits, vec![vec![0, 1, 2, 3], vec![4, 5, 6, 7]]);
    assert_eq!(samples[1].mask_logits, vec![vec![8, 9, 10, 11], vec![12, 13, 14, 15]]);
}

#[test]
fn sam_mask_samples_reject_invalid_batches() {
    let logits: Vec<u32> = (0..15).collect();
    let two = [size(1, 1), size(1, 1)];
    assert_eq!(sam_mask_samples::<u32>(&logits, size(2, 2), 2, &[], &[]).unwrap_err(), ImageProcessorError::EmptyBatch);
    assert_eq!(
        sam_mask_samples(&logits, size(2, 2), 2, &two, &two[..1]).unwrap_err(),
        ImageProcessorError::IncompatibleBatchShapes
    );
    assert_eq!(
        sam_mask_samples(&logits, size(2, 2), 0, &two, &two).unwrap_err(),
        ImageProcessorError::Transform(TransformError::EmptyMaskBatch)
    );
    assert_eq!(
        sam_mask_samples(&logits, size(2, 2), 2, &two, &two).unwrap_err(),
        ImageProcessorError::Transform(TransformError::InvalidBufferLength { expected: 16, actual: 15 })
    );
    assert_eq!(
        sam_mask_samples(&logits, size(usize::MAX, 2), 1, &two, &two).unwrap_err(),
        ImageProcessorError::Transform(TransformError::ImageSizeOverflow)
    );
}

#[test]
fn detr_detection_samples_split_queries_per_image() {
    let logits: Vec<u32> = (0..12).collect();
    let boxes = ['a', 'b', 'c', 'd'];
    let samples = detr_detection_samples(&logits, &boxes, 3, &[size(100, 200), size(50, 60)]).unwrap();
    assert_eq!(samples.len(), 2);
    assert_eq!(samples[0].target_size, size(100, 200));
    assert_eq!(samples[0].boxes, vec!['a', 'b']);
    assert_eq!(samples[0].logits, vec![0, 1, 2, 3, 4, 5]);
    assert_eq!(samples[1].boxes, vec!['c', 'd']);
    assert_eq!(samples[1].logits, vec![6, 7, 8, 9, 10, 11]);
}

#[test]
fn detr_detection_samples_reject_misaligned_batches() {
    let logits: Vec<u32> = (0..9).collect();
    let boxes = ['a', 'b', 'c'];
    assert_eq!(detr_detection_samples::<u32, char>(&logits, &boxes, 3, &[]).unwrap_err(), ImageProcessorError::EmptyBatch);
    assert_eq!(
        detr_detection_samples(&logits, &boxes, 3, &[size(1, 1), size(1, 1)]).unwrap_err(),
        ImageProcessorError::IncompatibleBatchShapes
    );
    assert_eq!(
        detr_detection_samples(&logits, &boxes, 4, &[size(1, 1)]).unwrap_err(),
        ImageProcessorError::Transform(TransformError::InvalidBufferLength { expected: 12, actual: 9 })
    );
    assert_eq!(
        detr_detection_samples(&logits, &boxes, usize::MAX, &[size(1, 1)]).unwrap_err(),
        ImageProcessorError::Tensor(TensorError::ShapeElementCountOverflow)
    );
}

#[test]
fn copy_range_copies_a_window() {
    assert_eq!(copy_range(&[1, 2, 3, 4, 5], 1, 3), vec![2, 3, 4]);
    assert!(copy_range(&[1, 2], 2, 0).is_empty());
}

#[test]
fn marigold_batch_plan_resizes_and_pads() {
    let plan = marigold_batch_plan(&[size(480, 640), size(480, 640)], Some(100), 8).unwrap();
    assert_eq!(
        plan,
        MarigoldBatchPlan {
            original_resolution: size(480, 640),
            reshaped_input_size: size(75, 100),
            padded_size: size(80, 104),
            values_len: 2 * 3 * 80 * 104,
        }
    );
}

#[test]
fn marigold_batch_plan_rejects_invalid_batches() {
    assert_eq!(marigold_batch_plan(&[], None, 8).unwrap_err(), ImageProcessorError::EmptyBatch);
    assert_eq!(
        marigold_batch_plan(&[size(4, 4), size(4, 5)], None, 8).unwrap_err(),
        ImageProcessorError::IncompatibleBatchShapes
    );
    assert_eq!(
        marigold_batch_plan(&[size(4, 4)], None, 0).unwrap_err(),
        ImageProcessorError::Transform(TransformError::InvalidSize { height: 0, width: 0 })
    );
}

#[test]
fn hunyuan_bucket_walk_visits_pairs_in_order() {
    assert_eq!(
        hunyuan_video_15_bucket_walk(4),
        vec![(4, 1), (3, 1), (2, 1), (2, 2), (1, 2), (1, 3), (1, 4)]
    );
    assert!(hunyuan_video_15_bucket_walk(0).is_empty());
}

#[test]
fn hunyuan_bucket_size_puts_width_patches_on_the_height() {
    assert_eq!(hunyuan_video_15_bucket_size(3, 2, 16).unwrap(), size(48, 32));
    assert_eq!(
        hunyuan_video_15_bucket_size(usize::MAX, 2, 16).unwrap_err(),
        ImageProcessorError::Transform(TransformError::ImageSizeOverflow)
    );
    assert_eq!(
        hunyuan_video_15_bucket_size(0, 2, 16).unwrap_err(),
        ImageProcessorError::Transform(TransformError::InvalidSize { height: 0, width: 32 })
    );
}

#[test]
fn ltx2_pad_plan_reflects_small_padding() {
    assert_eq!(
        ltx2_pad_plan(2, 3, size(31, 40), size(30, 40), size(32, 40)).unwrap(),
        Ltx2PadPlan { source_pixels: 31 * 40, target_pixels: 32 * 40, output_len: 6 * 32 * 40, pad_bottom: 2, pad_right: 0, reflect: true }
    );
    assert!(!ltx2_pad_plan(1, 3, size(4, 4), size(2, 4), size(8, 4)).unwrap().reflect);
    assert_eq!(
        ltx2_pad_plan(1, 3, size(4, 4), size(9, 4), size(8, 4)).unwrap_err(),
        ImageProcessorError::InvalidPaddingTarget { target_size: size(8, 4), image_size: size(9, 4) }
    );
}

#[test]
fn full_pixel_mask_is_all_ones() {
    assert_eq!(full_pixel_mask(2, 2, 3).unwrap(), vec![1u8; 12]);
    assert_eq!(
        full_pixel_mask(usize::MAX, 2, 1).unwrap_err(),
        ImageProcessorError::Tensor(TensorError::ShapeElementCountOverflow)
    );
}

#[test]
fn select_per_sample_mixes_by_flag() {
    let values = [1, 2, 3, 4, 5, 6, 7];
    let mapped = [10, 20, 30, 40, 50, 60, 70];
    assert_eq!(select_per_sample(&values, &mapped, &[true, false, true]).unwrap(), vec![10, 20, 3, 4, 50, 60]);
    assert_eq!(select_per_sample(&values, &mapped, &[]).unwrap_err(), ImageProcessorError::IncompatibleBatchShapes);
}

#[test]
fn ldm3d_split_sample_separates_rgb_and_depth() {
    let sample = [1, 2, 3, 4, 11, 12, 13, 14];
    let (rgb, depth) = ldm3d_split_sample(&sample, 1, 2, 4).unwrap();
    assert_eq!(rgb, vec![1, 2, 3, 11, 12, 13]);
    assert_eq!(depth, vec![4, 14]);
    let six = [1, 2, 3, 9, 5, 6];
    let (rgb, depth) = ldm3d_split_sample(&six, 1, 1, 6).unwrap();
    assert_eq!(rgb, vec![1, 2, 3]);
    assert_eq!(depth, vec![9, 5, 6]);
    assert_eq!(
        ldm3d_split_sample(&sample, 1, 2, 5).unwrap_err(),
        ImageProcessorError::Transform(TransformError::UnsupportedChannels(5))
    );
    assert_eq!(
        ldm3d_split_sample(&sample, 1, 1, 4).unwrap_err(),
        ImageProcessorError::Transform(TransformError::InvalidBufferLength { expected: 4, actual: 8 })
    );
    assert_eq!(ldm3d_depth_from_bytes(0x12, 0x34), 0x1234);
}

#[test]
fn pixel_route_dispatches_special_classes() {
    assert_eq!(pixel_route("Llama4ImageProcessor"), PixelRoute::Llama4);
    assert_eq!(pixel_route("PPOCRV5ServerRecImageProcessor"), PixelRoute::PpOcr);
    assert_eq!(pixel_route("PPOCRV6SmallRecImageProcessor"), PixelRoute::PpOcr);
    assert_eq!(pixel_route("SLANeXtImageProcessor"), PixelRoute::SlaNeXt);
    assert_eq!(pixel_route("BlipImageProcessor"), PixelRoute::Generic);
}

#[test]
fn generic_pixel_config_follows_the_pixel_spec() {
    let spec = pixel_spec("ChameleonImageProcessor");
    let config = generic_pixel_config("ChameleonImageProcessor", MultimodalResizeBackend::Pillow);
    assert!(config.do_resize);
    assert_eq!(config.height, Some(spec.edge));
    assert_eq!(config.width, Some(spec.edge));
    assert_eq!(config.resize_mode, ResizeMode::Default);
    assert_eq!(config.resample, ResizeFilter::Lanczos);
    assert_eq!(config.resize_parity, ResizeParity::Compatibility);
    assert_eq!(config.decode_backend, ImageDecodeBackend::ImageCrate);
    assert_eq!(config.batch_execution, BatchExecution::Sequential);
    assert_eq!(config.pixel_format, Some(PixelFormat::Rgb8));
    assert_eq!(config.rescale_factor, spec.rescale_factor);
    assert_eq!(config.image_mean, spec.mean.to_vec());
    assert_eq!(config.image_std, spec.std.to_vec());
    assert_eq!(config.output_layout, Layout::NCHW);
    let layout = generic_pixel_config("LayoutLMv2ImageProcessor", MultimodalResizeBackend::Torchvision);
    assert!(!layout.do_rescale);
    assert_eq!(layout.resize_parity, ResizeParity::Torchvision);
}

fn compact_pixels() -> MultimodalArray {
    MultimodalArray::new(vec![1, 3, 8, 8], MultimodalArrayData::F32((0..192).collect())).unwrap()
}

#[test]
fn tiled_outputs_add_the_class_metadata() {
    let aria = tiled_outputs("AriaImageProcessor", compact_pixels(), 5, 7, MultimodalResizeBackend::Pillow).unwrap();
    let names: Vec<&str> = aria.iter().map(|(name, _)| *name).collect();
    assert_eq!(names, vec!["pixel_values", "pixel_mask", "num_crops"]);
    assert_eq!(aria[1].1.shape(), &[1, 490, 490]);
    assert_eq!(aria[2].1.data(), &MultimodalArrayData::I64(vec![1]));

    let llava = tiled_outputs("LlavaOnevisionImageProcessor", compact_pixels(), 5, 7, MultimodalResizeBackend::Pillow).unwrap();
    assert_eq!(llava[0].1.shape(), &[1, 2, 3, 8, 8]);
    let MultimodalArrayData::F32(doubled) = llava[0].1.data() else { panic!("f32 pixel values") };
    assert_eq!(doubled.len(), 384);
    assert_eq!(doubled[192], 0);
    assert_eq!(doubled[383], 191);
    assert_eq!(llava[1].1.data(), &MultimodalArrayData::I64(vec![5, 7]));

    let smol = tiled_outputs("SmolVLMImageProcessor", compact_pixels(), 5, 7, MultimodalResizeBackend::Torchvision).unwrap();
    assert_eq!(smol[1].0, "pixel_attention_mask");
    assert_eq!(smol[1].1.data(), &MultimodalArrayData::F32(vec![F32_ONE; 64]));
    let smol_pillow = tiled_outputs("SmolVLMImageProcessor", compact_pixels(), 5, 7, MultimodalResizeBackend::Pillow).unwrap();
    assert_eq!(smol_pillow[1].1.data(), &MultimodalArrayData::I64(vec![1; 64]));

    let perception = tiled_outputs("PerceptionLMImageProcessor", compact_pixels(), 5, 7, MultimodalResizeBackend::Pillow).unwrap();
    assert_eq!(perception.len(), 1);
    assert_eq!(perception[0].1.shape(), &[1, 1, 3, 8, 8]);

    let plain = tiled_outputs("BlipImageProcessor", compact_pixels(), 5, 7, MultimodalResizeBackend::Pillow).unwrap();
    assert_eq!(plain.len(), 1);
    assert_eq!(plain[0].1, compact_pixels());
}

#[test]
fn tiled_outputs_reject_unexpected_payloads() {
    let bytes = MultimodalArray::new(vec![1, 3, 8, 8], MultimodalArrayData::U8(vec![0; 192])).unwrap();
    assert_eq!(
        tiled_outputs("PerceptionLMImageProcessor", bytes, 5, 7, MultimodalResizeBackend::Pillow).unwrap_err(),
        MultimodalProcessorError::UnexpectedTensorDtype
    );
    let short = MultimodalArray::new(vec![2], MultimodalArrayData::F32(vec![0, 0])).unwrap();
    assert_eq!(
        tiled_outputs("LlavaOnevisionImageProcessor", short, 5, 7, MultimodalResizeBackend::Pillow).unwrap_err(),
        MultimodalProcessorError::InvalidArrayLength { expected: 384, actual: 4 }
    );
}

#[test]
fn marigold_unpadded_samples_drop_bottom_and_right_padding() {
    // Two samples, one channel, 2x3 planes, one padded column on the right.
    let values: Vec<u32> = (0..12).collect();
    let padding = Padding { top: 0, right: 1, bottom: 0, left: 0 };
    let samples = marigold_unpadded_samples(&values, 2, 1, 2, 3, 1, padding).unwrap();
    assert_eq!(samples, vec![vec![0, 1, 3, 4], vec![6, 7, 9, 10]]);
    // Two channels are interleaved per pixel.
    let values: Vec<u32> = (0..8).collect();
    let samples = marigold_unpadded_samples(&values, 1, 2, 2, 2, 2, Padding { top: 0, right: 0, bottom: 1, left: 0 }).unwrap();
    assert_eq!(samples, vec![vec![0, 4, 1, 5]]);
}

#[test]
fn marigold_unpadded_samples_report_each_error() {
    let values = vec![0u32; 6];
    let none = Padding { top: 0, right: 0, bottom: 0, left: 0 };
    assert_eq!(
        marigold_unpadded_samples(&values, 1, 1, 2, 3, 0, none).unwrap_err(),
        ImageProcessorError::Transform(TransformError::InvalidChannelDataLength { channels: 0, actual: 6 })
    );
    assert_eq!(
        marigold_unpadded_samples(&values, 1, 1, 2, 3, 1, Padding { top: 1, ..none }).unwrap_err(),
        ImageProcessorError::UnsupportedProcessorOption { field: "padding" }
    );
    assert_eq!(
        marigold_unpadded_samples(&values, 1, 1, 2, 3, 3, none).unwrap_err(),
        ImageProcessorError::Transform(TransformError::InvalidChannelDataLength { channels: 3, actual: 1 })
    );
    assert_eq!(
        marigold_unpadded_samples(&values, 1, 1, 2, 3, 1, Padding { bottom: 2, ..none }).unwrap_err(),
        ImageProcessorError::Transform(TransformError::CropTooLarge { source_size: size(2, 3), target_size: size(1, 1) })
    );
    assert_eq!(marigold_uncertainty_channels(3).unwrap(), 3);
    assert_eq!(
        marigold_uncertainty_channels(2).unwrap_err(),
        ImageProcessorError::UnsupportedProcessorOption { field: "uncertainty_channels" }
    );
}

#[test]
fn joy_image_source_size_prefers_both_requested_dimensions() {
    let image = size(300, 400);
    let both = ImageProcessorOptions { height: Some(10), width: Some(20), resize_mode: None };
    assert_eq!(joy_image_source_size(both, image).unwrap(), size(10, 20));
    let one = ImageProcessorOptions { height: Some(10), width: None, resize_mode: None };
    assert_eq!(joy_image_source_size(one, image).unwrap(), size(300, 400));
    let zero = ImageProcessorOptions { height: Some(0), width: Some(20), resize_mode: None };
    assert_eq!(
        joy_image_source_size(zero, image).unwrap_err(),
        ImageProcessorError::Transform(TransformError::InvalidSize { height: 0, width: 20 })
    );
}

#[test]
fn ldm3d_output_dims_read_channel_last_layouts() {
    assert_eq!(ldm3d_output_dims(Layout::NHWC, &[2, 3, 4, 6]).unwrap(), (2, 3, 4, 6));
    assert_eq!(ldm3d_output_dims(Layout::HWC, &[3, 4, 4]).unwrap(), (1, 3, 4, 4));
    assert_eq!(
        ldm3d_output_dims(Layout::NCHW, &[2, 4, 3, 4]).unwrap_err(),
        ImageProcessorError::UnsupportedLayout(Layout::NCHW)
    );
}
