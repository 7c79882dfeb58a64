//! Container conversion: a stream with no graph nodes, optionally copying
//! codec data unchanged instead of re-encoding.

use vstd::prelude::*;

use crate::stream::fresh_stream;
use crate::stream::FfmpegError;
use crate::stream::FfmpegInputStream;
use crate::stream::StreamView;

verus! {

/// Configuration of a conversion: destination path, and whether to skip
/// re-encoding.
pub struct VideoConvertCommand {
    /// Output file.
    pub output: String,
    /// Whether to copy codec data unchanged.
    pub skip_encoding: bool,
}

/// How a conversion fails.
#[derive(Debug)]
pub enum VideoConvertError {
    /// An I/O failure around the invocation, with its message.
    IOError(String),
    /// A failure of the external tool's invocation.
    FFmpegError(FfmpegError),
    /// The requested target format is not supported.
    UnsupportedFormat,
}

/// The stream state a conversion sets up: no graph nodes; the copy-codec
/// passthrough arguments exactly when re-encoding is skipped.
pub open spec fn convert_stream(skip_encoding: bool, input: Seq<char>, output: Seq<char>) -> StreamView {
    let configured = StreamView {
        output_path: Some(output),
        ..fresh_stream(0, input)
    };
    if skip_encoding {
        StreamView { arguments: seq!["-c"@, "copy"@], ..configured }
    } else {
        configured
    }
}

impl VideoConvertCommand {
    /// Sets up the stream this conversion will run.
    pub fn configure(&self, input: &str) -> (r: FfmpegInputStream)
        ensures
            r@ == convert_stream(self.skip_encoding, input@, self.output@),
            r@.wf(),
    {
        let mut stream = FfmpegInputStream::new(0, input);
        stream.output(self.output.as_str());
        if self.skip_encoding {
            stream.skip_encoding();
            proof {
                assert(stream@.arguments =~= seq!["-c"@, "copy"@]);
                assert(stream@ =~= convert_stream(self.skip_encoding, input@, self.output@));
            }
        } else {
            proof {
                assert(stream@ =~= convert_stream(self.skip_encoding, input@, self.output@));
            }
        }
        stream
    }
}

} // verus!
