use media_tools::filter::Filter;

#[test]
fn scale_node_renders_with_one_input() {
    let node = Filter::scale("0".to_string(), "r00".to_string(), 640, 360);
    assert_eq!(node.to_argument(), "[0]scale=640:360[r00]");
}

#[test]
fn overlay_node_renders_with_two_inputs() {
    let node = Filter::overlay(
        "0".to_string(),
        "r10".to_string(),
        "r00".to_string(),
        10,
        20,
    );
    assert_eq!(node.to_argument(), "[0][r10]overlay=10:20[r00]");
}

#[test]
fn flip_nodes_render_without_parameters() {
    let h = Filter::hflip("0".to_string(), "r00".to_string());
    assert_eq!(h.to_argument(), "[0]hflip[r00]");
    let v = Filter::vflip("r00".to_string(), "r01".to_string());
    assert_eq!(v.to_argument(), "[r00]vflip[r01]");
}

#[test]
fn crop_pad_rotate_nodes_render_their_parameters() {
    let crop = Filter::crop("0".to_string(), "r00".to_string(), 100, 200);
    assert_eq!(crop.to_argument(), "[0]crop=100:200[r00]");
    let pad = Filter::pad(
        "r00".to_string(),
        "r01".to_string(),
        1920,
        1080,
        "#FFFFFF".to_string(),
    );
    assert_eq!(pad.to_argument(), "[r00]pad=1920:1080:#FFFFFF[r01]");
    let rotate = Filter::rotate("r01".to_string(), "r02".to_string(), -180);
    assert_eq!(rotate.to_argument(), "[r01]rotate=-180[r02]");
}

#[test]
fn opacity_node_renders_the_mixer_argument() {
    let node = Filter::opacity("1".to_string(), "r10".to_string(), 75);
    assert_eq!(
        node.to_argument(),
        "[1]format=rgba,colorchannelmixer=aa=0.75[r10]"
    );
}

#[test]
fn duplicated_nodes_render_identically() {
    let node = Filter::scale("0".to_string(), "r00".to_string(), 640, 360);
    let copy = node.duplicate();
    assert_eq!(node.to_argument(), copy.to_argument());
}
