//! Decoded image frames and crop boxes.

use vstd::prelude::*;

use crate::errors::MediaError;
use crate::geometry::ImageSize;
use crate::settings::{spec_channels, PixelFormat};

verus! {

/// A decoded image frame with interleaved 8-bit samples.
#[derive(Clone, Debug, PartialEq, Eq)]
pub struct ImageFrame {
    width: usize,
    height: usize,
    pixel_format: PixelFormat,
    data: Vec<u8>,
}

/// The frame-construction check: non-zero dimensions and a buffer of exactly
/// `width * height * channels` bytes.
pub open spec fn spec_image_frame_check(width: usize, height: usize, format: PixelFormat, len: nat) -> Result<(), MediaError> {
    if width == 0 || height == 0 {
        Err(MediaError::InvalidDimensions { width, height })
    } else if width * height * spec_channels(format) > usize::MAX || width * height > usize::MAX {
        Err(MediaError::BufferSizeOverflow)
    } else if len != width * height * spec_channels(format) {
        Err(MediaError::InvalidBufferLength {
            expected: (width * height * spec_channels(format)) as usize,
            actual: len as usize,
        })
    } else {
        Ok(())
    }
}

impl ImageFrame {
    /// Width in pixels.
    pub closed spec fn spec_width(&self) -> usize {
        self.width
    }

    /// Height in pixels.
    pub closed spec fn spec_height(&self) -> usize {
        self.height
    }

    /// Pixel format.
    pub closed spec fn spec_pixel_format(&self) -> PixelFormat {
        self.pixel_format
    }

    /// Interleaved samples.
    pub closed spec fn spec_data(&self) -> Seq<u8> {
        self.data@
    }

    /// Creates a frame from interleaved samples.
    pub fn new(width: usize, height: usize, pixel_format: PixelFormat, data: Vec<u8>) -> (r: Result<ImageFrame, MediaError>)
        ensures
            match spec_image_frame_check(width, height, pixel_format, data@.len()) {
                Err(e) => r == Err::<ImageFrame, MediaError>(e),
                Ok(()) => r matches Ok(f) && f.spec_width() == width && f.spec_height() == height
                    && f.spec_pixel_format() == pixel_format && f.spec_data() == data@,
            },
    {
        if width == 0 || height == 0 {
            return Err(MediaError::InvalidDimensions { width, height });
        }
        let channels = pixel_format.channels();
        let pixels = match width.checked_mul(height) {
            Some(p) => p,
            None => {
                assert(width * height * spec_channels(pixel_format) >= width * height) by (nonlinear_arith)
                    requires spec_channels(pixel_format) >= 1;
                return Err(MediaError::BufferSizeOverflow);
            },
        };
        let expected = match pixels.checked_mul(channels) {
            Some(e) => e,
            None => return Err(MediaError::BufferSizeOverflow),
        };
        if data.len() != expected {
            return Err(MediaError::InvalidBufferLength { expected, actual: data.len() });
        }
        Ok(ImageFrame { width, height, pixel_format, data })
    }

    /// Returns the width in pixels.
    pub fn width(&self) -> (r: usize)
        ensures
            r == self.spec_width(),
    {
        self.width
    }

    /// Returns the height in pixels.
    pub fn height(&self) -> (r: usize)
        ensures
            r == self.spec_height(),
    {
        self.height
    }

    /// Returns the pixel format.
    pub fn pixel_format(&self) -> (r: PixelFormat)
        ensures
            r == self.spec_pixel_format(),
    {
        self.pixel_format
    }

    /// Returns the interleaved samples.
    pub fn data(&self) -> (r: &[u8])
        ensures
            r@ == self.spec_data(),
    {
        self.data.as_slice()
    }

    /// Returns the frame size as height and width.
    pub fn size(&self) -> (r: ImageSize)
        ensures
            r == (ImageSize { height: self.spec_height(), width: self.spec_width() }),
    {
        ImageSize { height: self.height, width: self.width }
    }
}

/// A rectangular crop given by its inclusive-exclusive corner coordinates.
#[derive(Clone, Copy, Debug, PartialEq, Eq, Structural)]
pub struct ImageCropBox {
    /// Left edge.
    pub x_min: usize,
    /// Top edge.
    pub y_min: usize,
    /// Right edge.
    pub x_max: usize,
    /// Bottom edge.
    pub y_max: usize,
}

impl ImageCropBox {
    /// Creates a crop box from its corners.
    pub fn new(x_min: usize, y_min: usize, x_max: usize, y_max: usize) -> (r: ImageCropBox)
        ensures
            r == (ImageCropBox { x_min, y_min, x_max, y_max }),
    {
        ImageCropBox { x_min, y_min, x_max, y_max }
    }
}

} // verus!
