//! Axis orders of image, video and batched tensors.

use vstd::prelude::*;

use crate::indexing::{lemma_quotient_below, lemma_split};

verus! {

/// Device-agnostic axis order of a single image.
#[derive(Clone, Copy, Debug, PartialEq, Eq, Hash, Structural)]
pub enum ImageLayout {
    /// Channels, then height, then width.
    ChannelsHeightWidth,
    /// Height, then width, then channels.
    HeightWidthChannels,
}

/// Device-agnostic axis order of a frame sequence.
#[derive(Clone, Copy, Debug, PartialEq, Eq, Hash, Structural)]
pub enum VideoLayout {
    /// Frames, channels, height, width.
    FramesChannelsHeightWidth,
    /// Frames, height, width, channels.
    FramesHeightWidthChannels,
}

/// Axis order of a tensor.
#[allow(clippy::upper_case_acronyms)]
#[derive(Clone, Copy, Debug, PartialEq, Eq, Hash, Structural)]
pub enum Layout {
    /// Batch, channels, height, width.
    NCHW,
    /// Batch, height, width, channels.
    NHWC,
    /// Channels, height, width.
    CHW,
    /// Height, width, channels.
    HWC,
    /// Batch, channels.
    NC,
    /// Batch, patches, channels, height, width.
    NPCHW,
    /// Batch, patches, height, width, channels.
    NPHWC,
    /// Batch, frames, channels, height, width.
    BFCHW,
    /// Batch, frames, height, width, channels.
    BFHWC,
    /// Batch, images, patches, channels, height, width.
    NIPCHW,
    /// Batch, images, patches, height, width, channels.
    NIPHWC,
}

/// The video layout that keeps the channel position of an image layout.
pub open spec fn spec_video_layout_for_image_layout(layout: ImageLayout) -> VideoLayout {
    match layout {
        ImageLayout::ChannelsHeightWidth => VideoLayout::FramesChannelsHeightWidth,
        ImageLayout::HeightWidthChannels => VideoLayout::FramesHeightWidthChannels,
    }
}

/// The image layout that keeps the channel position of a video layout.
pub open spec fn spec_image_layout_for_video_layout(layout: VideoLayout) -> ImageLayout {
    match layout {
        VideoLayout::FramesChannelsHeightWidth => ImageLayout::ChannelsHeightWidth,
        VideoLayout::FramesHeightWidthChannels => ImageLayout::HeightWidthChannels,
    }
}

/// The batched tensor layout of an image layout.
pub open spec fn spec_batched_layout_for_image_layout(layout: ImageLayout) -> Layout {
    match layout {
        ImageLayout::ChannelsHeightWidth => Layout::NCHW,
        ImageLayout::HeightWidthChannels => Layout::NHWC,
    }
}

/// Returns the video layout with the same channel position as `layout`.
pub fn video_layout_for_image_layout(layout: ImageLayout) -> (r: VideoLayout)
    ensures
        r == spec_video_layout_for_image_layout(layout),
{
    match layout {
        ImageLayout::ChannelsHeightWidth => VideoLayout::FramesChannelsHeightWidth,
        ImageLayout::HeightWidthChannels => VideoLayout::FramesHeightWidthChannels,
    }
}

/// Returns the image layout with the same channel position as `layout`.
pub fn image_layout_for_video_layout(layout: VideoLayout) -> (r: ImageLayout)
    ensures
        r == spec_image_layout_for_video_layout(layout),
{
    match layout {
        VideoLayout::FramesChannelsHeightWidth => ImageLayout::ChannelsHeightWidth,
        VideoLayout::FramesHeightWidthChannels => ImageLayout::HeightWidthChannels,
    }
}

/// Returns the batched tensor layout of an image layout.
pub fn batched_layout_for_image_layout(layout: ImageLayout) -> (r: Layout)
    ensures
        r == spec_batched_layout_for_image_layout(layout),
{
    match layout {
        ImageLayout::ChannelsHeightWidth => Layout::NCHW,
        ImageLayout::HeightWidthChannels => Layout::NHWC,
    }
}

/// Converting an image layout to a video layout and back gives the image layout again,
/// and converting a video layout to an image layout and back gives the video layout again.
pub proof fn video_and_image_layouts_round_trip(image: ImageLayout, video: VideoLayout)
    ensures
        spec_image_layout_for_video_layout(spec_video_layout_for_image_layout(image)) == image,
        spec_video_layout_for_image_layout(spec_image_layout_for_video_layout(video)) == video,
{
}


/// Position in a planar `[batch, channels, plane]` buffer of value `o` of its
/// channel-last `[batch, plane, channels]` copy.
pub open spec fn channel_last_source(o: int, channels: int, plane: int) -> int {
    let pixel = o / channels;
    let channel = o % channels;
    let item = pixel / plane;
    let position = pixel % plane;
    (item * channels + channel) * plane + position
}

/// Reorders a planar `[batch, channels, plane]` buffer (`NCHW`, `CHW`, `BFCHW` with
/// `plane = height * width`) into channel-last order (`NHWC`, `HWC`, `BFHWC`).
pub fn to_channel_last<T: Copy>(values: &[T], batch: usize, channels: usize, plane: usize) -> (r: Vec<T>)
    requires
        channels > 0,
        plane > 0,
        values@.len() == batch * channels * plane,
    ensures
        r@.len() == values@.len(),
        forall|o: int| 0 <= o < r@.len() ==> #[trigger] r@[o] == values@[channel_last_source(o, channels as int, plane as int)],
{
    let total = values.len();
    let mut out: Vec<T> = Vec::new();
    let mut o: usize = 0;
    while o < total
        invariant
            total == values@.len(),
            total == batch * channels * plane,
            channels > 0,
            plane > 0,
            o <= total,
            out@.len() == o,
            forall|j: int| 0 <= j < o ==> #[trigger] out@[j] == values@[channel_last_source(j, channels as int, plane as int)],
        decreases total - o,
    {
        let pixel = o / channels;
        let channel = o % channels;
        let item = pixel / plane;
        let position = pixel % plane;
        proof {
            lemma_split(o as int, channels as int);
            assert(o < (batch * plane) * channels) by (nonlinear_arith)
                requires o < batch * channels * plane;
            lemma_quotient_below(o as int, channels as int, (batch * plane) as int);
            lemma_split(pixel as int, plane as int);
            lemma_quotient_below(pixel as int, plane as int, batch as int);
            assert((item * channels + channel) * plane + position < batch * channels * plane) by (nonlinear_arith)
                requires item < batch, channel < channels, position < plane, item >= 0, channel >= 0, position >= 0;
            assert(item * channels + channel < batch * channels * plane
                && item * channels <= item * channels + channel
                && (item * channels + channel) * plane <= (item * channels + channel) * plane + position) by (nonlinear_arith)
                requires item < batch, channel < channels, item >= 0, channel >= 0, plane >= 1, position >= 0;
            assert(total <= usize::MAX);
        }
        let index = (item * channels + channel) * plane + position;
        out.push(values[index]);
        o = o + 1;
    }
    out
}

/// Position in a channel-last `[batch, plane, channels]` buffer of value `o` of its
/// planar `[batch, channels, plane]` copy.
pub open spec fn channel_first_source(o: int, channels: int, plane: int) -> int {
    let row = o / plane;
    let position = o % plane;
    let item = row / channels;
    let channel = row % channels;
    (item * plane + position) * channels + channel
}

/// Reorders a channel-last `[batch, plane, channels]` buffer (`NHWC`, `HWC`) into planar
/// order (`NCHW`, `CHW`).
pub fn to_channel_first<T: Copy>(values: &[T], batch: usize, channels: usize, plane: usize) -> (r: Vec<T>)
    requires
        channels > 0,
        plane > 0,
        values@.len() == batch * channels * plane,
    ensures
        r@.len() == values@.len(),
        forall|o: int| 0 <= o < r@.len() ==> #[trigger] r@[o] == values@[channel_first_source(o, channels as int, plane as int)],
{
    let total = values.len();
    let mut out: Vec<T> = Vec::new();
    let mut o: usize = 0;
    while o < total
        invariant
            total == values@.len(),
            total == batch * channels * plane,
            channels > 0,
            plane > 0,
            o <= total,
            out@.len() == o,
            forall|j: int| 0 <= j < o ==> #[trigger] out@[j] == values@[channel_first_source(j, channels as int, plane as int)],
        decreases total - o,
    {
        let row = o / plane;
        let position = o % plane;
        let item = row / channels;
        let channel = row % channels;
        proof {
            lemma_split(o as int, plane as int);
            assert(o < (batch * channels) * plane) by (nonlinear_arith)
                requires o < batch * channels * plane;
            lemma_quotient_below(o as int, plane as int, (batch * channels) as int);
            lemma_split(row as int, channels as int);
            lemma_quotient_below(row as int, channels as int, batch as int);
            assert((item * plane + position) * channels + channel < batch * channels * plane
                && item * plane <= item * plane + position
                && item * plane + position <= (item * plane + position) * channels
                && (item * plane + position) * channels <= (item * plane + position) * channels + channel) by (nonlinear_arith)
                requires item < batch, channel < channels, position < plane, item >= 0, channel >= 0, position >= 0, channels >= 1;
            assert(total <= usize::MAX);
        }
        let index = (item * plane + position) * channels + channel;
        out.push(values[index]);
        o = o + 1;
    }
    out
}
} // verus!
