use image_processors::media::ImageFrame;
use image_processors::multimodal_arrays::{reverse_nchw_channels, MultimodalArray, MultimodalArrayData};
use image_processors::multimodal_pixels::{patchify_chw, patchify_hwc, pixel_spec};
use image_processors::multimodal_presets::{
    ensure_input, multimodal_class_aliases, multimodal_preset, multimodal_presets, normalize_ocr_word,
    MultimodalProcessor, MultimodalProcessorError, MultimodalRecipe, MultimodalResizeBackend,
};
use image_processors::settings::{PixelFormat, ResizeFilter};
use image_processors::recognition::{recognized_text, table_structure};
use image_processors::siglip2::{Siglip2Error, Siglip2ImageProcessor};
use image_processors::geometry::ImageSize;

fn bits(values: [f32; 3]) -> [u32; 3] {
    [values[0].to_bits(), values[1].to_bits(), values[2].to_bits()]
}

#[test]
fn pixel_spec_uses_compact_defaults_for_unlisted_classes() {
    let spec = pixel_spec("BeitImageProcessor");
    assert_eq!(spec.edge, 8);
    assert_eq!(spec.filter, ResizeFilter::Bicubic);
    assert_eq!(spec.rescale_factor, (1.0f32 / 255.0).to_bits());
    assert!(spec.do_rescale);
    assert!(spec.do_normalize);
    assert_eq!(spec.mean, bits([0.5; 3]));
    assert_eq!(spec.std, bits([0.5; 3]));
    assert!(!spec.reverse_channels);
}

#[test]
fn pixel_spec_records_class_specific_settings() {
    let aria = pixel_spec("AriaImageProcessor");
    assert_eq!(aria.edge, 490);
    assert_eq!(aria.filter, ResizeFilter::Bicubic);

    let chameleon = pixel_spec("ChameleonImageProcessor");
    assert_eq!(chameleon.filter, ResizeFilter::Lanczos);
    assert_eq!(chameleon.rescale_factor, 0.0078f32.to_bits());
    assert_eq!(chameleon.mean, bits([1.0; 3]));
    assert_eq!(chameleon.std, bits([1.0; 3]));

    let layout = pixel_spec("LayoutLMv2ImageProcessor");
    assert_eq!(layout.filter, ResizeFilter::Bilinear);
    assert!(!layout.do_rescale);
    assert!(!layout.do_normalize);
    assert!(layout.reverse_channels);

    let gemma = pixel_spec("Gemma4UnifiedImageProcessor");
    assert_eq!(gemma.edge, 16);
    assert!(!gemma.do_normalize);
    assert_eq!(gemma.mean, bits([0.0; 3]));
    assert_eq!(gemma.std, bits([1.0; 3]));

    let blip = pixel_spec("BlipImageProcessor");
    assert_eq!(blip.mean, bits([0.481_454_66, 0.457_827_5, 0.408_210_73]));
    assert_eq!(blip.std, bits([0.268_629_55, 0.261_302_6, 0.275_777_1]));

    let nougat = pixel_spec("NougatImageProcessor");
    assert_eq!(nougat.filter, ResizeFilter::Bilinear);
    assert_eq!(nougat.mean, bits([0.485, 0.456, 0.406]));
    assert_eq!(nougat.std, bits([0.229, 0.224, 0.225]));

    let formula = pixel_spec("PPFormulaNetImageProcessor");
    assert_eq!(formula.mean, bits([0.7931; 3]));
    assert_eq!(formula.std, bits([0.1738; 3]));

    assert_eq!(pixel_spec("GlmImageImageProcessor").edge, 4);
    assert_eq!(pixel_spec("MiniMaxM3VLImageProcessor").edge, 56);
    assert_eq!(pixel_spec("Phi4MultimodalImageProcessor").edge, 12);
}

#[test]
fn multimodal_array_rejects_zero_dimensions_first() {
    let err = MultimodalArray::new(vec![2, 0, 3], MultimodalArrayData::U8(vec![1, 2])).unwrap_err();
    assert!(matches!(err, MultimodalProcessorError::ZeroArrayDimension));
}

#[test]
fn multimodal_array_rejects_overflowing_shapes() {
    let err = MultimodalArray::new(vec![usize::MAX, 2], MultimodalArrayData::I64(vec![])).unwrap_err();
    assert!(matches!(err, MultimodalProcessorError::ShapeOverflow));
}

#[test]
fn multimodal_array_rejects_length_mismatch() {
    let err = MultimodalArray::new(vec![2, 3], MultimodalArrayData::I32(vec![1, 2, 3])).unwrap_err();
    assert!(matches!(
        err,
        MultimodalProcessorError::InvalidArrayLength { expected: 6, actual: 3 }
    ));
}

#[test]
fn multimodal_array_keeps_shape_and_data() {
    let array = MultimodalArray::new(vec![1, 2], MultimodalArrayData::Bool(vec![1, 0])).unwrap();
    assert_eq!(array.shape(), &[1, 2]);
    assert_eq!(array.data(), &MultimodalArrayData::Bool(vec![1, 0]));
}

#[test]
fn reverse_channels_swaps_first_and_last_planes() {
    let mut array = MultimodalArray::new(
        vec![2, 3, 1, 2],
        MultimodalArrayData::U8(vec![1, 2, 3, 4, 5, 6, 7, 8, 9, 10, 11, 12]),
    )
    .unwrap();
    reverse_nchw_channels(&mut array).unwrap();
    assert_eq!(
        array.data(),
        &MultimodalArrayData::U8(vec![5, 6, 3, 4, 1, 2, 11, 12, 9, 10, 7, 8])
    );
    reverse_nchw_channels(&mut array).unwrap();
    assert_eq!(
        array.data(),
        &MultimodalArrayData::U8(vec![1, 2, 3, 4, 5, 6, 7, 8, 9, 10, 11, 12])
    );
}

#[test]
fn reverse_channels_swaps_float_planes() {
    let values: Vec<u32> = [0.0f32, 0.5, 1.0].iter().map(|v| v.to_bits()).collect();
    let mut array = MultimodalArray::new(vec![1, 3, 1, 1], MultimodalArrayData::F32(values)).unwrap();
    reverse_nchw_channels(&mut array).unwrap();
    let expected: Vec<u32> = [1.0f32, 0.5, 0.0].iter().map(|v| v.to_bits()).collect();
    assert_eq!(array.data(), &MultimodalArrayData::F32(expected));
}

#[test]
fn reverse_channels_rejects_other_layouts_and_dtypes() {
    let mut flat = MultimodalArray::new(vec![3], MultimodalArrayData::U8(vec![1, 2, 3])).unwrap();
    assert!(matches!(
        reverse_nchw_channels(&mut flat),
        Err(MultimodalProcessorError::UnexpectedTensorDtype)
    ));
    assert_eq!(flat.data(), &MultimodalArrayData::U8(vec![1, 2, 3]));

    let mut ints = MultimodalArray::new(vec![1, 3, 1, 1], MultimodalArrayData::I64(vec![1, 2, 3])).unwrap();
    assert!(matches!(
        reverse_nchw_channels(&mut ints),
        Err(MultimodalProcessorError::UnexpectedTensorDtype)
    ));
}

#[test]
fn patchify_orders_patch_values_by_layout() {
    // Planar 3x2x4 image: value = channel * 8 + y * 4 + x.
    let values: Vec<u32> = (0..24).collect();
    let chw = patchify_chw(&values, 2, 4, 2);
    assert_eq!(
        chw,
        vec![0, 1, 4, 5, 8, 9, 12, 13, 16, 17, 20, 21, 2, 3, 6, 7, 10, 11, 14, 15, 18, 19, 22, 23]
    );
    let hwc = patchify_hwc(&values, 2, 4, 2);
    assert_eq!(
        hwc,
        vec![0, 8, 16, 1, 9, 17, 4, 12, 20, 5, 13, 21, 2, 10, 18, 3, 11, 19, 6, 14, 22, 7, 15, 23]
    );
}

#[test]
fn patchify_drops_partial_patches() {
    let values: Vec<u8> = (0..27).collect();
    assert_eq!(patchify_chw(&values, 3, 3, 2).len(), 12);
    assert!(patchify_hwc(&values, 3, 3, 4).is_empty());
}

#[test]
fn siglip2_rejects_invalid_patch_budgets() {
    assert!(matches!(Siglip2ImageProcessor::new(0, 4), Err(Siglip2Error::InvalidGeometry)));
    assert!(matches!(Siglip2ImageProcessor::new(16, 0), Err(Siglip2Error::InvalidGeometry)));
    assert!(matches!(
        Siglip2ImageProcessor::new(u32::MAX as usize + 1, 1),
        Err(Siglip2Error::InvalidGeometry)
    ));
    assert!(matches!(
        Siglip2ImageProcessor::new(u32::MAX as usize, u32::MAX as usize),
        Err(Siglip2Error::InvalidGeometry)
    ));
    let processor = Siglip2ImageProcessor::new(16, 256).unwrap();
    assert_eq!(processor.patch_size(), 16);
    assert_eq!(processor.max_num_patches(), 256);
}

#[test]
fn siglip2_packs_patches_and_pads_to_budget() {
    let processor = Siglip2ImageProcessor::new(1, 3).unwrap();
    let pixels = [1u8, 2, 3, 4, 5, 6];
    let (values, mask, grid) = processor.pack_patches(&pixels, ImageSize { height: 1, width: 2 }, 0);
    assert_eq!(values, vec![1, 2, 3, 4, 5, 6, 0, 0, 0]);
    assert_eq!(mask, vec![1, 1, 0]);
    assert_eq!(grid, [1, 2]);

    let processor = Siglip2ImageProcessor::new(2, 2).unwrap();
    // 2x4 RGB image: value = (y * 4 + x) * 3 + c.
    let pixels: Vec<u16> = (0..24).collect();
    let (values, mask, grid) = processor.pack_patches(&pixels, ImageSize { height: 2, width: 4 }, 99);
    assert_eq!(
        values,
        vec![0, 1, 2, 3, 4, 5, 12, 13, 14, 15, 16, 17, 6, 7, 8, 9, 10, 11, 18, 19, 20, 21, 22, 23]
    );
    assert_eq!(mask, vec![1, 1]);
    assert_eq!(grid, [1, 2]);
}

#[test]
fn every_multimodal_preset_builds_a_valid_recipe() {
    for preset in multimodal_presets() {
        let recipe = preset.processor_recipe().unwrap();
        assert_eq!(recipe.preset(), *preset);
        assert_eq!(recipe.class_name(), preset.class_name());
        assert_eq!(MultimodalRecipe::try_from(*preset).unwrap(), recipe);
        let processor = recipe.build().unwrap();
        assert_eq!(processor.preset(), preset);
    }
}

#[test]
fn multimodal_aliases_resolve_to_their_canonical_presets() {
    for (alias, canonical) in multimodal_class_aliases() {
        let preset = multimodal_preset(alias).unwrap();
        assert_eq!(preset.class_name(), *canonical);
        let processor = MultimodalProcessor::for_class(alias).unwrap();
        assert_eq!(processor.requested_class_name(), *alias);
    }
    let pil = MultimodalProcessor::for_class("AriaImageProcessorPil").unwrap();
    assert_eq!(pil.resize_backend(), MultimodalResizeBackend::Pillow);
    let direct = MultimodalProcessor::for_class("AriaImageProcessor").unwrap();
    assert_eq!(direct.resize_backend(), MultimodalResizeBackend::Torchvision);
    assert_eq!(direct.requested_class_name(), "AriaImageProcessor");
}

#[test]
fn multimodal_unknown_class_is_rejected_by_name() {
    assert!(multimodal_preset("NotAProcessor").is_none());
    match MultimodalProcessor::for_class("NotAProcessor") {
        Err(MultimodalProcessorError::UnknownClass(name)) => assert_eq!(name, "NotAProcessor"),
        other => panic!("expected unknown class, got {other:?}"),
    }
}

#[test]
fn compact_inputs_must_be_square_rgb_above_the_minimum_edge() {
    let preset = multimodal_preset("BlipImageProcessor").unwrap();
    let minimum = preset.minimum_input_edge();
    let gray = ImageFrame::new(minimum, minimum, PixelFormat::Luma8, vec![0; minimum * minimum]).unwrap();
    assert!(matches!(
        ensure_input(preset, &gray),
        Err(MultimodalProcessorError::UnsupportedPixelFormat(PixelFormat::Luma8))
    ));
    let wide = ImageFrame::new(minimum + 1, minimum, PixelFormat::Rgb8, vec![0; (minimum + 1) * minimum * 3]).unwrap();
    assert!(matches!(
        ensure_input(preset, &wide),
        Err(MultimodalProcessorError::NonSquareInput { .. })
    ));
    if minimum > 1 {
        let small = ImageFrame::new(1, 1, PixelFormat::Rgb8, vec![0; 3]).unwrap();
        assert!(matches!(
            ensure_input(preset, &small),
            Err(MultimodalProcessorError::InputTooSmall { actual: 1, .. })
        ));
    }
    let ok = ImageFrame::new(minimum, minimum, PixelFormat::Rgb8, vec![0; minimum * minimum * 3]).unwrap();
    assert!(ensure_input(preset, &ok).is_ok());
}

#[test]
fn empty_and_extra_frames_are_rejected() {
    let processor = MultimodalProcessor::for_class("BlipImageProcessor").unwrap();
    assert!(matches!(processor.validate_frames(&[]), Err(MultimodalProcessorError::EmptyInput)));
    let edge = processor.preset().minimum_input_edge();
    let frame = ImageFrame::new(edge, edge, PixelFormat::Rgb8, vec![0; edge * edge * 3]).unwrap();
    assert!(matches!(
        processor.validate_frames(&[frame.clone(), frame]),
        Err(MultimodalProcessorError::UnsupportedFrameCount { actual: 2, .. })
    ));
}

#[test]
fn ocr_words_are_scaled_to_page_thousandths() {
    let word = normalize_ocr_word("invoice".to_string(), [50, 25, 150, 75], 200, 100).unwrap();
    assert_eq!(word.text, "invoice");
    assert_eq!(word.box_1000, [250, 250, 750, 750]);
    let clamped = normalize_ocr_word("x".to_string(), [0, 0, 400, 300], 200, 100).unwrap();
    assert_eq!(clamped.box_1000, [0, 0, 1000, 1000]);
    assert!(matches!(
        normalize_ocr_word("x".to_string(), [0, 0, 1, 1], 0, 100),
        Err(MultimodalProcessorError::ZeroArrayDimension)
    ));
}

#[test]
fn recognized_text_joins_vocabulary_entries() {
    let characters = ["", "a", "b", "c"];
    assert_eq!(recognized_text(&[1, 3, 2], &characters).unwrap(), "acb");
    assert_eq!(recognized_text(&[], &characters).unwrap(), "");
    assert!(matches!(
        recognized_text(&[1, 7, 9], &characters),
        Err(MultimodalProcessorError::VocabularyIndex { index: 7, vocabulary_len: 4 })
    ));
}

#[test]
fn table_structure_wraps_tokens_in_document_tags() {
    let vocabulary = ["<tr>", "<td></td>", "</tr>"];
    assert_eq!(
        table_structure(&[0, 1, 2], &vocabulary).unwrap(),
        vec!["<html>", "<body>", "<table>", "<tr>", "<td></td>", "</tr>", "</table>", "</body>", "</html>"]
    );
    assert!(matches!(
        table_structure(&[0, 3], &vocabulary),
        Err(MultimodalProcessorError::VocabularyIndex { index: 3, vocabulary_len: 3 })
    ));
}
