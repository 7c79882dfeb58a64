use media_tools::color::from_str_to_hex;
use media_tools::labels::i64_to_string;
use media_tools::labels::u64_to_string;
use media_tools::probe::classify_probe_spawn_error;
use media_tools::probe::dimensions_from;
use media_tools::probe::parse_video_dimensions;
use media_tools::probe::probe_arguments;
use media_tools::probe::FfprobeError;

#[test]
fn parses_a_probe_report() {
    let report = "{\"streams\": [{\"width\": 1920, \"height\": 1080}]}";
    assert_eq!(parse_video_dimensions(report).unwrap(), (1920, 1080));
}

#[test]
fn rejects_text_that_is_not_json() {
    let result = parse_video_dimensions("streams: nope");
    assert!(matches!(result, Err(FfprobeError::JsonParseError)));
}

#[test]
fn rejects_a_report_without_streams() {
    let result = parse_video_dimensions("{\"format\": {}}");
    assert!(matches!(result, Err(FfprobeError::JsonParseError)));
}

#[test]
fn rejects_a_report_with_an_empty_stream_list() {
    let result = parse_video_dimensions("{\"streams\": []}");
    assert!(matches!(result, Err(FfprobeError::JsonParseError)));
}

#[test]
fn rejects_non_integral_dimensions() {
    let report = "{\"streams\": [{\"width\": -3, \"height\": 2.5}]}";
    let result = parse_video_dimensions(report);
    assert!(matches!(result, Err(FfprobeError::JsonParseError)));
}

#[test]
fn rejects_dimensions_beyond_the_type() {
    let result = dimensions_from(Some(5_000_000_000), Some(100));
    assert!(matches!(result, Err(FfprobeError::JsonParseError)));
    assert_eq!(dimensions_from(Some(640), Some(480)).unwrap(), (640, 480));
}

#[test]
fn probe_command_line() {
    let args = probe_arguments("clip.mov");
    assert_eq!(
        args,
        vec![
            "-v",
            "error",
            "-select_streams",
            "v:0",
            "-show_entries",
            "stream=width,height",
            "-of",
            "json",
            "clip.mov",
        ]
    );
}

#[test]
fn probe_spawn_failures_are_classified() {
    let missing = classify_probe_spawn_error(true, String::new());
    assert!(matches!(missing, FfprobeError::ExecutableNotFound));
    let other = classify_probe_spawn_error(false, "broken pipe".to_string());
    match other {
        FfprobeError::IOError(message) => assert_eq!(message, "broken pipe"),
        _ => panic!("expected an IOError"),
    }
}

#[test]
fn hex_of_a_full_rgba_tuple() {
    assert_eq!(from_str_to_hex("(255, 0, 10, 128)"), "#FF000A80");
}

#[test]
fn hex_without_parentheses() {
    assert_eq!(from_str_to_hex("1,2,3"), "#010203");
}

#[test]
fn hex_of_empty_parentheses() {
    assert_eq!(from_str_to_hex("()"), "#00");
}

#[test]
fn unreadable_components_count_as_zero() {
    assert_eq!(from_str_to_hex("(300, abc, 12,)"), "#00000C00");
}

#[test]
fn plus_signs_and_padding_zeros_are_accepted() {
    assert_eq!(from_str_to_hex("(+16, 0016, -16, 16 16)"), "#10100000");
}

#[test]
fn decimal_rendering() {
    assert_eq!(u64_to_string(0), "0");
    assert_eq!(u64_to_string(7), "7");
    assert_eq!(u64_to_string(1234567890), "1234567890");
    assert_eq!(i64_to_string(-45), "-45");
    assert_eq!(i64_to_string(360), "360");
}
