use image_processors::families::ClipImageProcessorConfig;
use image_processors::settings::{BatchExecution, ImageDecodeBackend};

#[test]
fn family_configs_propagate_decode_backend_and_batch_execution_to_generic_config() {
    let config = ClipImageProcessorConfig {
        decode_backend: ImageDecodeBackend::TurboJpeg,
        batch_execution: BatchExecution::Parallel,
        ..Default::default()
    };

    assert_eq!(
        config.image_processor_config().decode_backend,
        ImageDecodeBackend::TurboJpeg
    );
    assert_eq!(
        config.image_processor_config().batch_execution,
        BatchExecution::Parallel
    );
}
