//! Error values shared by the processor families.

use vstd::prelude::*;

use crate::geometry::ImageSize;
use crate::layout::Layout;

verus! {

/// Geometry and buffer errors raised by image transforms.
#[allow(inconsistent_fields)]
#[derive(Clone, Copy, Debug, PartialEq, Eq)]
pub enum TransformError {
    /// A height or width was zero.
    InvalidSize {
        /// Rejected height.
        height: usize,
        /// Rejected width.
        width: usize,
    },
    /// A size computation overflowed `usize`.
    ImageSizeOverflow,
    /// A scale factor or divisor was zero or otherwise unusable.
    InvalidScaleFactor(usize),
    /// A buffer did not hold the expected number of values.
    InvalidBufferLength {
        /// Expected value count.
        expected: usize,
        /// Actual value count.
        actual: usize,
    },
    /// A paired frame did not have the expected size.
    IncompatibleFrameSize {
        /// Which paired frame was rejected.
        frame: &'static str,
        /// Expected size.
        expected: ImageSize,
        /// Actual size.
        actual: ImageSize,
    },
    /// A channel count is not supported.
    UnsupportedChannels(usize),
    /// A mask batch held no masks per image.
    EmptyMaskBatch,
    /// A channel count does not match the values it describes.
    InvalidChannelDataLength {
        /// Expected channel count.
        channels: usize,
        /// Rejected length or channel count.
        actual: usize,
    },
    /// A crop would remove the whole image.
    CropTooLarge {
        /// Size before cropping.
        source_size: ImageSize,
        /// Size left after cropping.
        target_size: ImageSize,
    },
    /// A dimension does not fit the range an image buffer accepts.
    DimensionTooLarge {
        /// Which dimension was rejected.
        dimension: &'static str,
        /// Rejected value.
        value: usize,
        /// Largest accepted value.
        max: usize,
    },
}

/// Tensor-shape errors.
#[derive(Clone, Copy, Debug, PartialEq, Eq)]
pub enum TensorError {
    /// The element count of a shape overflowed `usize`.
    ShapeElementCountOverflow,
}

/// Errors raised while building decoded image frames.
#[derive(Clone, Copy, Debug, PartialEq, Eq)]
pub enum MediaError {
    /// A frame dimension was zero.
    InvalidDimensions {
        /// Rejected width.
        width: usize,
        /// Rejected height.
        height: usize,
    },
    /// The frame buffer size overflowed `usize`.
    BufferSizeOverflow,
    /// The pixel buffer did not match the frame size.
    InvalidBufferLength {
        /// Expected byte count.
        expected: usize,
        /// Actual byte count.
        actual: usize,
    },
}

/// Errors raised by image processors.
#[derive(Clone, Copy, Debug, PartialEq, Eq)]
pub enum ImageProcessorError {
    /// A batch held no items.
    EmptyBatch,
    /// Items of a batch do not share a compatible shape.
    IncompatibleBatchShapes,
    /// A padding target is smaller than an image it must hold.
    InvalidPaddingTarget {
        /// Requested padding target.
        target_size: ImageSize,
        /// Image that does not fit.
        image_size: ImageSize,
    },
    /// A geometry or buffer transform failed.
    Transform(TransformError),
    /// A tensor shape was invalid.
    Tensor(TensorError),
    /// A decoded frame was invalid.
    Media(MediaError),
    /// A VAE latent channel count of zero was configured.
    InvalidVaeLatentChannels(usize),
    /// A processor option has an unsupported value.
    UnsupportedProcessorOption {
        /// Name of the rejected option.
        field: &'static str,
    },
    /// Per-sample denormalization flags do not match the sample count.
    InvalidDenormalizeFlags {
        /// Number of samples in the tensor.
        expected: usize,
        /// Number of flags supplied.
        actual: usize,
    },
    /// A tensor layout is not supported by the requested operation.
    UnsupportedLayout(Layout),
    /// A resize factor is not the product of the patch and merge sizes.
    InvalidPatchGeometry {
        /// Configured resize factor.
        resize_factor: usize,
        /// Configured spatial patch size.
        patch_size: usize,
        /// Configured spatial merge size.
        merge_size: usize,
    },
    /// A tensor holds fewer channels than the operation needs.
    InvalidNormalizationStats {
        /// Channels the operation needs.
        channels: usize,
        /// Channels the tensor holds.
        actual: usize,
    },
}

} // verus!
