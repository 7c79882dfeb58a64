use media_tools::convert::VideoConvertCommand;
use media_tools::flip::FlipCommand;
use media_tools::mute::MuteCommand;
use media_tools::resize::ResizeCommand;
use media_tools::rotate::apply_rotation;
use media_tools::stream::Ffmpeg;
use media_tools::watermark::overlay_offset;
use media_tools::watermark::VideoWatermarkPosition;

#[test]
fn convert_without_reencoding() {
    let command = VideoConvertCommand {
        output: "out.webm".to_string(),
        skip_encoding: true,
    };
    let stream = command.configure("in.mp4");
    let args = stream.command_arguments().unwrap();
    assert_eq!(args, vec!["-i", "in.mp4", "-c", "copy", "-y", "out.webm"]);
}

#[test]
fn convert_with_reencoding() {
    let command = VideoConvertCommand {
        output: "out.webm".to_string(),
        skip_encoding: false,
    };
    let stream = command.configure("in.mp4");
    let args = stream.command_arguments().unwrap();
    assert_eq!(args, vec!["-i", "in.mp4", "-y", "out.webm"]);
}

#[test]
fn flip_both_axes_in_order() {
    let command = FlipCommand {
        horizontal: true,
        vertical: true,
        output: "out.mp4".to_string(),
    };
    let stream = command.configure("in.mp4");
    assert_eq!(stream.compile_filters(), "[0]hflip[r00];[r00]vflip[r01]");
}

#[test]
fn flip_neither_axis_is_an_empty_chain() {
    let command = FlipCommand {
        horizontal: false,
        vertical: false,
        output: "out.mp4".to_string(),
    };
    let stream = command.configure("in.mp4");
    assert_eq!(stream.compile_filters(), "");
}

#[test]
fn mute_drops_the_audio_track() {
    let command = MuteCommand {
        output: "out.mp4".to_string(),
    };
    let stream = command.configure("in.mp4");
    let args = stream.command_arguments().unwrap();
    assert_eq!(args, vec!["-i", "in.mp4", "-an", "-y", "out.mp4"]);
}

fn resize_command(width: u32, width_pct: bool, height: u32, height_pct: bool, keep: bool) -> ResizeCommand {
    ResizeCommand {
        width,
        width_as_percentage: width_pct,
        height,
        height_as_percentage: height_pct,
        keep_ratio: keep,
        output: "out.mp4".to_string(),
    }
}

#[test]
fn resize_absolute_dimensions() {
    let command = resize_command(1280, false, 720, false, false);
    assert_eq!(command.plan_dimensions(1920, 1080), Some((1280, 720)));
}

#[test]
fn resize_percentages_round_to_nearest() {
    let command = resize_command(50, true, 50, true, false);
    assert_eq!(command.get_new_width(1920), 960);
    assert_eq!(command.get_new_height(1081), 541);
    assert_eq!(command.plan_dimensions(1920, 1081), Some((960, 541)));
}

#[test]
fn resize_percentages_clamp_above_hundred() {
    let command = resize_command(250, true, 100, true, false);
    assert_eq!(command.get_new_width(640), 640);
    assert_eq!(command.get_new_height(480), 480);
}

#[test]
fn resize_keep_ratio_adjusts_the_closer_dimension() {
    let command = resize_command(1000, false, 700, false, true);
    assert_eq!(command.plan_dimensions(1920, 1080), Some((1000, 564)));
}

#[test]
fn resize_keep_ratio_keeps_matching_dimensions() {
    let command = resize_command(1280, false, 720, false, true);
    assert_eq!(command.plan_dimensions(1920, 1080), Some((1280, 720)));
}

#[test]
fn resize_percentage_of_the_largest_frame() {
    let command = resize_command(100, true, 100, true, false);
    assert_eq!(command.get_new_width(u32::MAX), u32::MAX);
    assert_eq!(command.get_new_height(u32::MAX), u32::MAX);
}

#[test]
fn resize_ratio_overflowing_the_dimension_type_is_refused() {
    // Both candidates land on the odd maximum, so evening it up cannot fit.
    let command = resize_command(u32::MAX, false, u32::MAX, false, true);
    assert_eq!(command.plan_dimensions(5, 5), None);
}

#[test]
fn resize_configure_emits_one_scale_node() {
    let command = resize_command(1280, false, 720, false, false);
    let stream = command.configure("in.mp4", 1280, 720);
    assert_eq!(stream.compile_filters(), "[0]scale=1280:720[r00]");
    let args = stream.command_arguments().unwrap();
    assert_eq!(
        args,
        vec![
            "-i",
            "in.mp4",
            "-filter_complex",
            "[0]scale=1280:720[r00]",
            "-map",
            "[r00]",
            "-y",
            "out.mp4",
        ]
    );
}

#[test]
fn rotation_preserving_size_is_one_node() {
    let mut stream = Ffmpeg::input(0, "in.mp4");
    apply_rotation(&mut stream, true, 45, 0, 0, 1920, 1080, "#000000");
    assert_eq!(stream.compile_filters(), "[0]rotate=45[r00]");
}

#[test]
fn rotation_resizing_pads_rotates_and_crops() {
    let mut stream = Ffmpeg::input(0, "in.mp4");
    apply_rotation(&mut stream, false, 90, 1080, 1920, 1920, 1080, "#FF00FF00");
    assert_eq!(
        stream.compile_filters(),
        "[0]pad=1920:1920:#FF00FF00[r00];[r00]rotate=90[r01];[r01]crop=1080:1920[r02]"
    );
}

#[test]
fn watermark_offsets_for_each_position() {
    assert_eq!(
        overlay_offset(VideoWatermarkPosition::TopLeft, 1920, 1080, 200, 100),
        (0, 0)
    );
    assert_eq!(
        overlay_offset(VideoWatermarkPosition::TopRight, 1920, 1080, 200, 100),
        (1720, 0)
    );
    assert_eq!(
        overlay_offset(VideoWatermarkPosition::Center, 1920, 1080, 200, 100),
        (860, 490)
    );
    assert_eq!(
        overlay_offset(VideoWatermarkPosition::BottomLeft, 1920, 1080, 200, 100),
        (0, 980)
    );
    assert_eq!(
        overlay_offset(VideoWatermarkPosition::BottomRight, 1920, 1080, 200, 100),
        (1720, 980)
    );
}

#[test]
fn watermark_larger_than_video_is_clamped() {
    assert_eq!(
        overlay_offset(VideoWatermarkPosition::BottomRight, 640, 480, 800, 600),
        (0, 0)
    );
}
