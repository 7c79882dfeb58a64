//! The dimension probe: command line for the external probing tool, and the
//! parsing of its JSON report into a `(width, height)` pair.
//!
//! The probe prints a JSON document whose `streams` array holds, first, the
//! selected video stream with integral `width` and `height` entries.  JSON
//! decoding itself is done by the `serde_json` crate behind one trusted
//! reader whose results are named; everything around those values is
//! verified, so success and every failure are pinned to the report text.

use vstd::prelude::*;

verus! {

/// How a dimension probe fails; distinct from the filter-graph errors.
#[derive(Debug)]
pub enum FfprobeError {
    /// A spawn failure other than a missing executable, with its message.
    IOError(String),
    /// The external probing executable is not present.
    ExecutableNotFound,
    /// The probe output held no usable dimensions.
    JsonParseError,
}

/// The `width` entry of the first probed stream of a JSON report, as the
/// JSON decoder reads it: a function of the report text alone.
pub uninterp spec fn probe_width_of(text: Seq<char>) -> Option<u64>;

/// The `height` entry of the first probed stream of a JSON report, as the
/// JSON decoder reads it: a function of the report text alone.
pub uninterp spec fn probe_height_of(text: Seq<char>) -> Option<u64>;

/// Relies on serde_json::from_str, Value::get and Value::as_u64: decodes the
/// report and reads `streams[0].width` and `streams[0].height`, each `None`
/// when the text is not valid JSON, the path is absent, or the entry is not
/// a number representable as u64.
#[verifier::external_body]
fn read_report_dimensions(text: &str) -> (r: (Option<u64>, Option<u64>))
    ensures
        r.0 == probe_width_of(text@),
        r.1 == probe_height_of(text@),
{
    let report: serde_json::Value = match serde_json::from_str(text) {
        Ok(report) => report,
        Err(_) => return (None, None),
    };
    let first = report.get("streams").and_then(|streams| streams.get(0));
    let width = first.and_then(|stream| stream.get("width")).and_then(|w| w.as_u64());
    let height = first.and_then(|stream| stream.get("height")).and_then(|h| h.as_u64());
    (width, height)
}

/// Turns the two values drawn from the probe report into dimensions: both
/// must be present and fit the dimension type, else the report is unusable.
pub fn dimensions_from(width: Option<u64>, height: Option<u64>) -> (r: Result<
    (u32, u32),
    FfprobeError,
>)
    ensures
        r is Ok <==> ((width matches Some(w) && w <= u32::MAX) && (height matches Some(h) && h
            <= u32::MAX)),
        r matches Ok(d) ==> Some(d.0 as u64) == width && Some(d.1 as u64) == height,
        r is Err ==> r == Result::<(u32, u32), FfprobeError>::Err(FfprobeError::JsonParseError),
{
    match (width, height) {
        (Some(w), Some(h)) => {
            if w <= 0xFFFF_FFFF && h <= 0xFFFF_FFFF {
                Ok((w as u32, h as u32))
            } else {
                Err(FfprobeError::JsonParseError)
            }
        },
        _ => Err(FfprobeError::JsonParseError),
    }
}

/// Reads `(width, height)` of the first probed stream out of the probe
/// tool's JSON report: `Ok` exactly when the decoder finds both entries and
/// they fit the dimension type; every failure is a parse failure, never an
/// I/O error.
pub fn parse_video_dimensions(text: &str) -> (r: Result<(u32, u32), FfprobeError>)
    ensures
        r is Ok <==> ((probe_width_of(text@) matches Some(w) && w <= u32::MAX) && (
        probe_height_of(text@) matches Some(h) && h <= u32::MAX)),
        r matches Ok(d) ==> Some(d.0 as u64) == probe_width_of(text@) && Some(d.1 as u64)
            == probe_height_of(text@),
        r is Err ==> r == Result::<(u32, u32), FfprobeError>::Err(FfprobeError::JsonParseError),
{
    let (width, height) = read_report_dimensions(text);
    dimensions_from(width, height)
}

/// The command line of the external probing tool for one input path: probe
/// errors only, select the first video stream, report width and height as
/// JSON.
pub fn probe_arguments(path: &str) -> (r: Vec<String>)
    ensures
        r.deep_view() == seq![
            "-v"@,
            "error"@,
            "-select_streams"@,
            "v:0"@,
            "-show_entries"@,
            "stream=width,height"@,
            "-of"@,
            "json"@,
            path@,
        ],
{
    let mut args: Vec<String> = Vec::new();
    args.push("-v".to_owned());
    args.push("error".to_owned());
    args.push("-select_streams".to_owned());
    args.push("v:0".to_owned());
    args.push("-show_entries".to_owned());
    args.push("stream=width,height".to_owned());
    args.push("-of".to_owned());
    args.push("json".to_owned());
    args.push(path.to_owned());
    proof {
        assert(args.deep_view() =~= seq![
            "-v"@,
            "error"@,
            "-select_streams"@,
            "v:0"@,
            "-show_entries"@,
            "stream=width,height"@,
            "-of"@,
            "json"@,
            path@,
        ]);
    }
    args
}

/// Classifies a spawn failure of the probing tool: a missing executable is
/// distinguished from every other I/O failure.
pub fn classify_probe_spawn_error(executable_not_found: bool, message: String) -> (r: FfprobeError)
    ensures
        executable_not_found ==> r == FfprobeError::ExecutableNotFound,
        !executable_not_found ==> r == FfprobeError::IOError(message),
{
    if executable_not_found {
        FfprobeError::ExecutableNotFound
    } else {
        FfprobeError::IOError(message)
    }
}

} // verus!
