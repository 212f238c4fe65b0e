# image_processors

Configuration, geometry and preset logic of image preprocessors for vision,
vision-language and diffusion models, verified with Verus.

- `src/` is the verified library: family configurations and their lowering to
  the generic tensor-stage configuration, Hugging Face `preprocessor_config.json`
  parsing, the encoder, task-vision and multimodal preset catalogs, resize and
  padding geometry, processor recipes, the batch assembly, padding, masks,
  layout changes and per-image splitting of the DETR, SAM, VAE, Marigold, LDM3D
  and LTX-2 pre- and postprocessing stages (taking the floating-point resampling
  results as values), the encoder geometry plans, and the index arithmetic of patch packing, padding, channel reordering
  and cropping. Floating-point settings are held as IEEE-754 bit
  patterns; `floatbits` converts integers and `f64` patterns to `f32` and `f64`
  patterns with round-to-nearest-even, proved against an integer model.
- `app/` holds the steps that are floating point (resize scales, sampling,
  color quantization, rounding, unit-range quantization of LDM3D outputs) and `std::error::Error` reports for some error
  types.
- `tests/` exercises the library on concrete values.
