//! Mirroring a video horizontally, vertically, or both.

use vstd::prelude::*;

use crate::stream::fresh_stream;
use crate::stream::unary_step;
use crate::stream::FfmpegError;
use crate::stream::FfmpegInputStream;
use crate::stream::StreamView;

verus! {

/// Configuration of a flip: which axes to mirror, and the destination path.
pub struct FlipCommand {
    /// Mirror around the vertical axis.
    pub horizontal: bool,
    /// Mirror around the horizontal axis.
    pub vertical: bool,
    /// Output file.
    pub output: String,
}

/// How a flip fails.
#[derive(Debug)]
pub enum FlipError {
    /// A failure of the external tool's invocation.
    FFmpegError(FfmpegError),
}

/// The stream state a flip sets up: a horizontal-flip node when asked for, a
/// vertical-flip node after it when asked for, then the destination path.
pub open spec fn flip_stream(
    horizontal: bool,
    vertical: bool,
    input: Seq<char>,
    output: Seq<char>,
) -> StreamView {
    let start = fresh_stream(0, input);
    let after_h = if horizontal {
        unary_step(start, "hflip"@, Seq::empty())
    } else {
        start
    };
    let after_v = if vertical {
        unary_step(after_h, "vflip"@, Seq::empty())
    } else {
        after_h
    };
    StreamView { output_path: Some(output), ..after_v }
}

impl FlipCommand {
    /// Sets up the stream this flip will run.
    pub fn configure(&self, input: &str) -> (r: FfmpegInputStream)
        ensures
            r@ == flip_stream(self.horizontal, self.vertical, input@, self.output@),
            r@.wf(),
    {
        let mut stream = FfmpegInputStream::new(0, input);
        if self.horizontal {
            stream.hflip();
        }
        if self.vertical {
            stream.vflip();
        }
        stream.output(self.output.as_str());
        proof {
            assert(stream@ =~= flip_stream(self.horizontal, self.vertical, input@, self.output@));
        }
        stream
    }
}

} // verus!
