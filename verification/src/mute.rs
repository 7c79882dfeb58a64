//! Removing the audio track from a video.

use vstd::prelude::*;

use crate::stream::fresh_stream;
use crate::stream::FfmpegError;
use crate::stream::FfmpegInputStream;
use crate::stream::StreamView;

verus! {

/// Configuration of a mute: the destination path.
pub struct MuteCommand {
    /// Output file.
    pub output: String,
}

/// How a mute fails.
#[derive(Debug)]
pub enum MuteError {
    /// An I/O failure around the invocation, with its message.
    IOError(String),
    /// A failure of the external tool's invocation.
    FFmpegError(FfmpegError),
}

/// The stream state a mute sets up: no graph nodes, only the passthrough
/// argument dropping the audio track, then the destination path.
pub open spec fn mute_stream(input: Seq<char>, output: Seq<char>) -> StreamView {
    StreamView {
        arguments: seq!["-an"@],
        output_path: Some(output),
        ..fresh_stream(0, input)
    }
}

impl MuteCommand {
    /// Sets up the stream this mute will run.
    pub fn configure(&self, input: &str) -> (r: FfmpegInputStream)
        ensures
            r@ == mute_stream(input@, self.output@),
            r@.wf(),
    {
        let mut stream = FfmpegInputStream::new(0, input);
        stream.remove_audio();
        stream.output(self.output.as_str());
        proof {
            assert(stream@.arguments =~= seq!["-an"@]);
            assert(stream@ =~= mute_stream(input@, self.output@));
        }
        stream
    }
}

} // verus!
