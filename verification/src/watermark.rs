//! Placing a watermark stream over a video: the pixel offset for each of the
//! five supported positions.

use vstd::prelude::*;

verus! {

/// Where the watermark is placed over the video frame.
#[derive(Clone, Copy, PartialEq, Eq, Structural, Debug)]
pub enum VideoWatermarkPosition {
    TopLeft,
    TopRight,
    Center,
    BottomLeft,
    BottomRight,
}

/// A watermark dimension never exceeds the video's.
pub open spec fn fitted(watermark_dim: nat, video_dim: nat) -> nat {
    if watermark_dim > video_dim {
        video_dim
    } else {
        watermark_dim
    }
}

/// The overlay offset of a watermark of the fitted size for one position.
pub open spec fn position_offset(
    position: VideoWatermarkPosition,
    video_width: nat,
    video_height: nat,
    fitted_width: nat,
    fitted_height: nat,
) -> (nat, nat)
    recommends
        fitted_width <= video_width,
        fitted_height <= video_height,
{
    match position {
        VideoWatermarkPosition::TopLeft => (0, 0),
        VideoWatermarkPosition::TopRight => ((video_width - fitted_width) as nat, 0),
        VideoWatermarkPosition::Center => (
            (((video_width - fitted_width) as nat) / 2),
            (((video_height - fitted_height) as nat) / 2),
        ),
        VideoWatermarkPosition::BottomLeft => (0, (video_height - fitted_height) as nat),
        VideoWatermarkPosition::BottomRight => (
            (video_width - fitted_width) as nat,
            (video_height - fitted_height) as nat,
        ),
    }
}

/// Computes the overlay offset for a watermark over a video: the watermark's
/// dimensions are clamped to the video's, then placed per the position.
pub fn overlay_offset(
    position: VideoWatermarkPosition,
    video_width: u32,
    video_height: u32,
    watermark_width: u32,
    watermark_height: u32,
) -> (r: (u32, u32))
    ensures
        (r.0 as nat, r.1 as nat) == position_offset(
            position,
            video_width as nat,
            video_height as nat,
            fitted(watermark_width as nat, video_width as nat),
            fitted(watermark_height as nat, video_height as nat),
        ),
{
    let fitted_width = if watermark_width > video_width {
        video_width
    } else {
        watermark_width
    };
    let fitted_height = if watermark_height > video_height {
        video_height
    } else {
        watermark_height
    };
    match position {
        VideoWatermarkPosition::TopLeft => (0, 0),
        VideoWatermarkPosition::TopRight => (video_width - fitted_width, 0),
        VideoWatermarkPosition::Center => (
            (video_width - fitted_width) / 2,
            (video_height - fitted_height) / 2,
        ),
        VideoWatermarkPosition::BottomLeft => (0, video_height - fitted_height),
        VideoWatermarkPosition::BottomRight => (
            video_width - fitted_width,
            video_height - fitted_height,
        ),
    }
}

} // verus!
