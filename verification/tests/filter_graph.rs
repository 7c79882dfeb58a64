use media_tools::stream::classify_spawn_error;
use media_tools::stream::normalize_command;
use media_tools::stream::Ffmpeg;
use media_tools::stream::FfmpegError;
use media_tools::stream::FfmpegInputStream;

#[test]
fn scale_single_node() {
    let mut stream = Ffmpeg::input(0, "in.mp4");
    stream.scale(640, 360);
    assert_eq!(stream.compile_filters(), "[0]scale=640:360[r00]");
    assert_eq!(stream.get_current_result(), "r00");
}

#[test]
fn hflip_then_vflip_chains_labels() {
    let mut stream = Ffmpeg::input(0, "in.mp4");
    stream.hflip();
    stream.vflip();
    assert_eq!(stream.compile_filters(), "[0]hflip[r00];[r00]vflip[r01]");
    assert_eq!(stream.get_current_result(), "r01");
}

#[test]
fn overlay_pulls_in_other_streams_nodes_first() {
    let mut video = Ffmpeg::input(0, "video.mp4");
    let mut watermark = Ffmpeg::input(1, "logo.png");
    watermark.scale(50, 50);
    video.overlay(&watermark, 10, 20);
    assert_eq!(
        video.compile_filters(),
        "[1]scale=50:50[r10];[0][r10]overlay=10:20[r00]"
    );
    assert_eq!(video.get_current_result(), "r00");
}

#[test]
fn long_chain_has_distinct_output_labels() {
    let mut stream = Ffmpeg::input(0, "in.mp4");
    stream.hflip();
    stream.vflip();
    stream.scale(100, 100);
    stream.crop(50, 50);
    assert_eq!(
        stream.compile_filters(),
        "[0]hflip[r00];[r00]vflip[r01];[r01]scale=100:100[r02];[r02]crop=50:50[r03]"
    );
}

#[test]
fn compiling_twice_is_byte_identical() {
    let mut stream = Ffmpeg::input(0, "in.mp4");
    stream.scale(640, 360);
    stream.rotate(-90);
    let first = stream.compile_filters();
    let second = stream.compile_filters();
    assert_eq!(first, second);
    assert_eq!(first, "[0]scale=640:360[r00];[r00]rotate=-90[r01]");
}

#[test]
fn empty_chain_compiles_to_empty_text() {
    let stream = Ffmpeg::input(0, "in.mp4");
    assert_eq!(stream.compile_filters(), "");
}

#[test]
fn empty_chain_omits_filter_arguments() {
    let mut stream = Ffmpeg::input(0, "in.mp4");
    stream.output("out.mp4");
    let args = stream.command_arguments().unwrap();
    assert!(!args.iter().any(|a| a == "-filter_complex"));
    assert!(!args.iter().any(|a| a == "-map"));
    assert_eq!(args, vec!["-i", "in.mp4", "-y", "out.mp4"]);
}

#[test]
fn full_command_line_order() {
    let mut video = Ffmpeg::input(0, "video.mp4");
    let mut watermark = Ffmpeg::input(1, "logo.png");
    watermark.scale(50, 50);
    video.overlay(&watermark, 10, 20);
    video.skip_encoding();
    video.output("out.mp4");
    let args = video.command_arguments().unwrap();
    assert_eq!(
        args,
        vec![
            "-i",
            "video.mp4",
            "-i",
            "logo.png",
            "-filter_complex",
            "[1]scale=50:50[r10];[0][r10]overlay=10:20[r00]",
            "-map",
            "[r00]",
            "-c",
            "copy",
            "-y",
            "out.mp4",
        ]
    );
}

#[test]
fn missing_output_is_reported_before_any_spawn() {
    let mut stream = Ffmpeg::input(0, "in.mp4");
    stream.scale(640, 360);
    let result = stream.command_arguments();
    assert!(matches!(result, Err(FfmpegError::MissingOutput)));
}

#[test]
fn missing_executable_is_classified() {
    let error = classify_spawn_error(true, String::new());
    assert!(matches!(error, FfmpegError::ExecutableNotFound));
}

#[test]
fn other_spawn_failures_keep_their_message() {
    let error = classify_spawn_error(false, "permission denied".to_string());
    match error {
        FfmpegError::IOError(message) => assert_eq!(message, "permission denied"),
        _ => panic!("expected an IOError"),
    }
}

#[test]
fn opacity_renders_hundredths() {
    let cases: Vec<(u32, &str)> = vec![
        (0, "[0]format=rgba,colorchannelmixer=aa=0[r00]"),
        (5, "[0]format=rgba,colorchannelmixer=aa=0.05[r00]"),
        (50, "[0]format=rgba,colorchannelmixer=aa=0.5[r00]"),
        (55, "[0]format=rgba,colorchannelmixer=aa=0.55[r00]"),
        (100, "[0]format=rgba,colorchannelmixer=aa=1[r00]"),
        (250, "[0]format=rgba,colorchannelmixer=aa=1[r00]"),
    ];
    for (value, expected) in cases {
        let mut stream = FfmpegInputStream::new(0, "in.mp4");
        stream.opacity(value);
        assert_eq!(stream.compile_filters(), expected);
    }
}

#[test]
fn pad_takes_a_fill_color() {
    let mut stream = Ffmpeg::input(0, "in.mp4");
    stream.pad(1920, 1080, "#000000");
    assert_eq!(stream.compile_filters(), "[0]pad=1920:1080:#000000[r00]");
}

#[test]
fn remove_audio_is_a_raw_argument() {
    let mut stream = Ffmpeg::input(0, "in.mp4");
    stream.remove_audio();
    stream.output("out.mp4");
    assert_eq!(stream.compile_filters(), "");
    let args = stream.command_arguments().unwrap();
    assert_eq!(args, vec!["-i", "in.mp4", "-an", "-y", "out.mp4"]);
}

#[test]
fn executable_lookup_inside_a_bundle() {
    assert_eq!(
        normalize_command("ffmpeg", Some("/opt/bundle")),
        "/opt/bundle/usr/bin/ffmpeg"
    );
}

#[test]
fn executable_lookup_outside_a_bundle() {
    assert_eq!(normalize_command("ffprobe", None), "ffprobe");
}

#[test]
fn multi_digit_ids_and_versions() {
    let mut stream = Ffmpeg::input(12, "in.mp4");
    for _ in 0..11 {
        stream.hflip();
    }
    assert_eq!(stream.get_current_result(), "r1210");
    let text = stream.compile_filters();
    assert!(text.starts_with("[12]hflip[r120];[r120]hflip[r121]"));
    assert!(text.ends_with("[r129]hflip[r1210]"));
}
