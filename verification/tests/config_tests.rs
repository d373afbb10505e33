use thumbnailer::config::{Config, ConfigStore, PositionedText, ThumbnailError};

fn template(font: &str) -> Config {
    Config {
        width: 1280,
        height: 720,
        base_path: String::from("static"),
        char_img_path: String::from("chars"),
        font: String::from(font),
        background_images: vec![String::from("bg.png")],
        foreground_images: vec![String::from("fg.png")],
        positioned_texts: vec![PositionedText {
            text: String::from("PLAYER_1"),
            x: 100,
            y: 100,
            scale_milli: 48_000,
            theta_milli: 0,
        }],
    }
}

#[test]
fn current_returns_equal_snapshot() {
    let store = ConfigStore::new(template("a.ttf"), vec![1, 2, 3], vec![String::from("ryu.png")]);
    let snap = store.current();
    assert_eq!(snap.width, 1280);
    assert_eq!(snap.height, 720);
    assert_eq!(snap.base_path, "static");
    assert_eq!(snap.char_img_path, "chars");
    assert_eq!(snap.font, "a.ttf");
    assert_eq!(snap.background_images, vec![String::from("bg.png")]);
    assert_eq!(snap.foreground_images, vec![String::from("fg.png")]);
    assert_eq!(snap.positioned_texts.len(), 1);
    assert_eq!(snap.positioned_texts[0].text, "PLAYER_1");
}

#[test]
fn successful_reload_swaps_whole_pair() {
    let mut store =
        ConfigStore::new(template("a.ttf"), vec![1, 2, 3], vec![String::from("ryu.png")]);
    let outcome = store.reload(Ok((
        template("b.ttf"),
        vec![9, 9],
        vec![String::from("ken.png"), String::from("ryu.png")],
    )));
    assert!(outcome.is_ok());
    assert_eq!(store.current().font, "b.ttf");
    assert_eq!(store.font(), &vec![9, 9]);
    assert_eq!(store.sprites().len(), 2);
}

#[test]
fn failed_reload_keeps_previous_pair() {
    // The font resource disappeared before the reload: the previously active
    // configuration and font stay in force, as one untouched pair.
    let mut store =
        ConfigStore::new(template("a.ttf"), vec![1, 2, 3], vec![String::from("ryu.png")]);
    let outcome =
        store.reload(Err(ThumbnailError::ResourceLoad(String::from("font missing"))));
    match outcome {
        Err(ThumbnailError::ResourceLoad(msg)) => assert_eq!(msg, "font missing"),
        _ => panic!("expected the resource error back"),
    }
    assert_eq!(store.current().font, "a.ttf");
    assert_eq!(store.font(), &vec![1, 2, 3]);
    assert_eq!(store.sprites(), &vec![String::from("ryu.png")]);
}

#[test]
fn failed_config_parse_reports_config_error() {
    let mut store = ConfigStore::new(template("a.ttf"), vec![1], Vec::new());
    let outcome = store.reload(Err(ThumbnailError::ConfigLoad(String::from("bad json"))));
    match outcome {
        Err(ThumbnailError::ConfigLoad(msg)) => assert_eq!(msg, "bad json"),
        _ => panic!("expected the config error back"),
    }
    assert_eq!(store.current().font, "a.ttf");
}

#[test]
fn io_error_variant_carries_message() {
    let e = ThumbnailError::CompositionIo(String::from("disk full"));
    match e {
        ThumbnailError::CompositionIo(msg) => assert_eq!(msg, "disk full"),
        _ => panic!("wrong variant"),
    }
}

#[test]
fn well_formedness_checks_canvas_size() {
    assert!(template("a.ttf").is_well_formed());
    let mut huge = template("a.ttf");
    huge.width = u32::MAX;
    huge.height = u32::MAX;
    assert!(!huge.is_well_formed());
}

#[test]
fn duplicate_copies_every_field() {
    let source = template("a.ttf");
    let copy = source.duplicate();
    assert_eq!(copy.width, source.width);
    assert_eq!(copy.height, source.height);
    assert_eq!(copy.base_path, source.base_path);
    assert_eq!(copy.char_img_path, source.char_img_path);
    assert_eq!(copy.font, source.font);
    assert_eq!(copy.background_images, source.background_images);
    assert_eq!(copy.foreground_images, source.foreground_images);
    assert_eq!(copy.positioned_texts.len(), source.positioned_texts.len());
    assert_eq!(copy.positioned_texts[0].text, source.positioned_texts[0].text);
    assert_eq!(copy.positioned_texts[0].scale_milli, source.positioned_texts[0].scale_milli);
}
