use thumbnailer::compose::{build_layer_paths, compose_layers, compose_thumbnail};
use thumbnailer::config::Config;
use thumbnailer::imgops::RgbaBuffer;

/// A width x height buffer filled with one RGBA pixel value.
fn solid(width: u32, height: u32, px: (u8, u8, u8, u8)) -> RgbaBuffer {
    let mut data = Vec::new();
    for _ in 0..(width as usize * height as usize) {
        data.push(px.0);
        data.push(px.1);
        data.push(px.2);
        data.push(px.3);
    }
    RgbaBuffer::from_bytes(width, height, data).unwrap()
}

fn config(width: u32, height: u32) -> Config {
    Config {
        width,
        height,
        base_path: String::from("static"),
        char_img_path: String::from("chars"),
        font: String::from("font.ttf"),
        background_images: vec![String::from("bg0.png"), String::from("bg1.png")],
        foreground_images: vec![String::from("fg.png")],
        positioned_texts: Vec::new(),
    }
}

#[test]
fn from_bytes_rejects_wrong_length() {
    assert!(RgbaBuffer::from_bytes(2, 2, vec![0u8; 15]).is_none());
    assert!(RgbaBuffer::from_bytes(2, 2, vec![0u8; 16]).is_some());
}

#[test]
fn later_opaque_layer_wins() {
    let bottom = solid(2, 2, (10, 20, 30, 255));
    let top = solid(2, 2, (200, 100, 50, 255));
    let out = compose_layers(2, 2, &vec![bottom, top]);
    assert_eq!(out.pixel(0, 0), Some((200, 100, 50, 255)));
    assert_eq!(out.pixel(1, 1), Some((200, 100, 50, 255)));
}

#[test]
fn transparent_layer_leaves_lower_layers() {
    let bottom = solid(2, 2, (10, 20, 30, 255));
    let top = solid(2, 2, (200, 100, 50, 0));
    let out = compose_layers(2, 2, &vec![bottom, top]);
    assert_eq!(out.pixel(0, 0), Some((10, 20, 30, 255)));
}

#[test]
fn uncovered_region_stays_transparent() {
    // A 1x1 layer on a 2x2 canvas covers only (0, 0).
    let small = solid(1, 1, (9, 9, 9, 255));
    let out = compose_layers(2, 2, &vec![small]);
    assert_eq!(out.pixel(0, 0), Some((9, 9, 9, 255)));
    assert_eq!(out.pixel(1, 0), Some((0, 0, 0, 0)));
    assert_eq!(out.pixel(0, 1), Some((0, 0, 0, 0)));
}

#[test]
fn empty_stack_gives_blank_canvas() {
    let out = compose_layers(3, 2, &Vec::new());
    assert_eq!(out.dims(), (3, 2));
    for y in 0..2 {
        for x in 0..3 {
            assert_eq!(out.pixel(x, y), Some((0, 0, 0, 0)));
        }
    }
}

#[test]
fn composition_is_deterministic() {
    let a = vec![solid(2, 2, (10, 20, 30, 255)), solid(1, 1, (1, 2, 3, 128))];
    let b = vec![a[0].duplicate(), a[1].duplicate()];
    let cfg = config(2, 2);
    let first = compose_thumbnail(&cfg, &a).into_bytes();
    let second = compose_thumbnail(&cfg, &b).into_bytes();
    assert_eq!(first, second);
}

#[test]
fn flatten_drops_alpha_and_backfills_black() {
    let top = solid(1, 1, (50, 60, 70, 255));
    let cfg = config(2, 1);
    let out = compose_thumbnail(&cfg, &vec![top]);
    assert_eq!(out.dims(), (2, 1));
    assert_eq!(out.pixel(0, 0), Some((50, 60, 70)));
    // The uncovered pixel had no alpha left to carry: it flattens to black.
    assert_eq!(out.pixel(1, 0), Some((0, 0, 0)));
}

#[test]
fn rgb_bytes_are_row_major() {
    let a = solid(1, 1, (1, 2, 3, 255));
    let out = compose_thumbnail(&config(2, 1), &vec![a]).into_bytes();
    assert_eq!(out, vec![1, 2, 3, 0, 0, 0]);
}

#[test]
fn layer_paths_follow_declared_order() {
    let cfg = config(16, 16);
    let paths = build_layer_paths(&cfg, &String::from("ryu.png"), &String::from("ken.png"));
    assert_eq!(
        paths,
        vec![
            String::from("static/bg0.png"),
            String::from("static/bg1.png"),
            String::from("static/chars/ryu.png"),
            String::from("static/chars/ken.png"),
            String::from("static/fg.png"),
        ]
    );
}
