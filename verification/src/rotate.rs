//! Rotating a video: either in place, or padded out to the rotated bounding
//! box, rotated, and cropped to the new dimensions.

use vstd::prelude::*;

use crate::labels::dec_str;
use crate::labels::sdec_str;
use crate::stream::unary_step;
use crate::stream::FfmpegInputStream;
use crate::stream::StreamView;

verus! {

/// The larger of two dimensions.
pub open spec fn dim_max(a: nat, b: nat) -> nat {
    if a > b {
        a
    } else {
        b
    }
}

/// The chain a rotation appends to a stream: a bare rotation node when the
/// original size is preserved, else padding out to the bounding box, the
/// rotation, and a crop down to the rotated dimensions.
pub open spec fn rotate_chain(
    v: StreamView,
    preserve_size: bool,
    angle: int,
    new_width: nat,
    new_height: nat,
    video_width: nat,
    video_height: nat,
    fill_color: Seq<char>,
) -> StreamView {
    if preserve_size {
        unary_step(v, "rotate"@, seq![sdec_str(angle)])
    } else {
        let padded = unary_step(
            v,
            "pad"@,
            seq![
                dec_str(dim_max(new_width, video_width)),
                dec_str(dim_max(new_height, video_height)),
                fill_color,
            ],
        );
        let rotated = unary_step(padded, "rotate"@, seq![sdec_str(angle)]);
        unary_step(rotated, "crop"@, seq![dec_str(new_width), dec_str(new_height)])
    }
}

/// Chains a rotation onto `stream`.  The rotated bounding box
/// `(new_width, new_height)` is the caller's, computed from the angle; when
/// the original size is preserved it is unused.
pub fn apply_rotation(
    stream: &mut FfmpegInputStream,
    preserve_size: bool,
    angle: i32,
    new_width: u32,
    new_height: u32,
    video_width: u32,
    video_height: u32,
    fill_color: &str,
)
    requires
        old(stream)@.wf(),
    ensures
        final(stream)@ == rotate_chain(
            old(stream)@,
            preserve_size,
            angle as int,
            new_width as nat,
            new_height as nat,
            video_width as nat,
            video_height as nat,
            fill_color@,
        ),
        final(stream)@.wf(),
{
    if preserve_size {
        stream.rotate(angle);
    } else {
        let pad_width = if new_width > video_width {
            new_width
        } else {
            video_width
        };
        let pad_height = if new_height > video_height {
            new_height
        } else {
            video_height
        };
        stream.pad(pad_width, pad_height, fill_color);
        stream.rotate(angle);
        stream.crop(new_width, new_height);
    }
}

} // verus!
