//! Image-processor configuration, geometry and preset logic.

pub mod errors;
pub mod geometry;
pub mod layout;
pub mod settings;
pub mod text;
pub mod generic;
pub mod media;
pub mod vae;
pub mod detection;
pub mod diffusion;
pub mod marigold;
pub mod encoder_presets;
pub mod task_vision_presets;
pub mod task_vision_config;
pub mod multimodal_presets;
pub mod families;
pub mod floatbits;
pub mod json;
pub mod hf_config;
pub mod encoder_processor;
pub mod multimodal_pixels;
pub mod multimodal_arrays;
pub mod recognition;
pub mod indexing;
pub mod siglip2;
pub mod recipe;
