use image_processors::errors::{ImageProcessorError, TransformError};
use image_processors::families::{VivitImageProcessor, VivitImageProcessorConfig};
use image_processors::vae::DepthMapU16;

#[test]
fn vivit_processor_rejects_offset_without_rescale() {
    let err = VivitImageProcessor::new(VivitImageProcessorConfig {
        do_rescale: false,
        offset: true,
        ..Default::default()
    })
    .unwrap_err();

    assert!(matches!(
        err,
        ImageProcessorError::UnsupportedProcessorOption { field: "offset" }
    ));
}

#[test]
fn ldm3d_depth_map_rejects_mismatched_value_count() {
    let err = DepthMapU16::new(2, 2, vec![0; 3]).unwrap_err();

    assert!(matches!(
        err,
        ImageProcessorError::Transform(TransformError::InvalidBufferLength {
            expected: 4,
            actual: 3
        })
    ));
}
