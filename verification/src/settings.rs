//! Resize, decode, pixel-format and batch-execution settings.

use vstd::prelude::*;

verus! {

/// Resampling filter used when resizing images.
#[derive(Clone, Copy, Debug, PartialEq, Eq, Hash, Structural)]
pub enum ResizeFilter {
    /// Nearest-neighbour sampling.
    Nearest,
    /// Bilinear (triangle) filtering.
    Bilinear,
    /// Bicubic filtering.
    Bicubic,
    /// Lanczos filtering.
    Lanczos,
}

/// Numerical parity policy that a resize implementation follows.
#[derive(Clone, Copy, Debug, PartialEq, Eq, Hash, Structural)]
pub enum ResizeParity {
    /// Pillow-compatible resizing.
    Compatibility,
    /// Exact pixel-index resizing.
    PixelExact,
    /// Antialiased tensor resizing as done by torchvision.
    Torchvision,
}

/// How a generic processor maps an image onto the requested size.
#[derive(Clone, Copy, Debug, PartialEq, Eq, Hash, Structural)]
pub enum ResizeMode {
    /// Resize directly to the requested size.
    Default,
    /// Resize and center-crop to the requested size.
    Crop,
    /// Resize inside the requested size and fill the remainder.
    Fill,
}

/// The resize filter together with the parity policy that executes it.
#[derive(Clone, Copy, Debug, PartialEq, Eq, Hash, Structural)]
pub struct ResizeDecision {
    /// Filter used by the resize.
    pub filter: ResizeFilter,
    /// Parity policy of the resize.
    pub parity: ResizeParity,
}

/// Image decoding backend used by path entry points.
#[derive(Clone, Copy, Debug, PartialEq, Eq, Hash, Structural)]
pub enum ImageDecodeBackend {
    /// Decoding through the `image` crate.
    ImageCrate,
    /// Decoding through libjpeg-turbo.
    TurboJpeg,
}

/// Batch execution policy of tensor conversion.
#[derive(Clone, Copy, Debug, PartialEq, Eq, Hash, Structural)]
pub enum BatchExecution {
    /// Items are converted one after another.
    Sequential,
    /// Items are converted in parallel.
    Parallel,
}

/// Pixel storage of a decoded frame.
#[derive(Clone, Copy, Debug, PartialEq, Eq, Hash, Structural)]
pub enum PixelFormat {
    /// Interleaved 8-bit red, green, blue.
    Rgb8,
    /// 8-bit luminance.
    Luma8,
}

/// Number of interleaved channels of a pixel format.
pub open spec fn spec_channels(format: PixelFormat) -> usize {
    match format {
        PixelFormat::Rgb8 => 3,
        PixelFormat::Luma8 => 1,
    }
}

impl PixelFormat {
    /// Returns the number of interleaved channels of this format.
    pub fn channels(&self) -> (r: usize)
        ensures
            r == spec_channels(*self),
    {
        match self {
            PixelFormat::Rgb8 => 3,
            PixelFormat::Luma8 => 1,
        }
    }
}

impl Default for ImageDecodeBackend {
    fn default() -> (r: Self)
        ensures
            r == ImageDecodeBackend::ImageCrate,
    {
        ImageDecodeBackend::ImageCrate
    }
}

impl Default for BatchExecution {
    fn default() -> (r: Self)
        ensures
            r == BatchExecution::Sequential,
    {
        BatchExecution::Sequential
    }
}

impl Default for ResizeParity {
    fn default() -> (r: Self)
        ensures
            r == ResizeParity::Compatibility,
    {
        ResizeParity::Compatibility
    }
}

impl ResizeDecision {
    /// Pillow-compatible resizing with `filter`.
    pub fn compatibility(filter: ResizeFilter) -> (r: ResizeDecision)
        ensures
            r == (ResizeDecision { filter, parity: ResizeParity::Compatibility }),
    {
        ResizeDecision { filter, parity: ResizeParity::Compatibility }
    }
}

/// Combines a resize filter with its parity policy.
pub fn resize_decision_for_parts(filter: ResizeFilter, parity: ResizeParity) -> (r: ResizeDecision)
    ensures
        r == (ResizeDecision { filter, parity }),
{
    ResizeDecision { filter, parity }
}

} // verus!
