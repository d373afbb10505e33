use thumbnailer::config::{Config, PositionedText};
use thumbnailer::text::{centered_top_left, resolve_text, resolve_texts, Request};

fn request() -> Request {
    Request {
        tournament_name: String::from("Spring Open"),
        round_name: String::from("Grand Final"),
        date: String::from("2024-06-01"),
        player_1: String::from("Alice"),
        fighter_1: String::from("red.png"),
        player_2: String::from("Bob"),
        fighter_2: String::from("blue.png"),
    }
}

#[test]
fn placeholder_player_1_resolved() {
    let text = resolve_text(&String::from("PLAYER_1"), &request());
    assert_eq!(text, "Alice");
}

#[test]
fn literal_rendered_verbatim() {
    let text = resolve_text(&String::from("CustomLabel"), &request());
    assert_eq!(text, "CustomLabel");
}

#[test]
fn all_reserved_names_resolved() {
    let req = request();
    assert_eq!(resolve_text(&String::from("TOURNAMENT_NAME"), &req), "Spring Open");
    assert_eq!(resolve_text(&String::from("ROUND_NAME"), &req), "Grand Final");
    assert_eq!(resolve_text(&String::from("DATE"), &req), "2024-06-01");
    assert_eq!(resolve_text(&String::from("PLAYER_2"), &req), "Bob");
}

#[test]
fn reserved_match_is_case_sensitive() {
    let text = resolve_text(&String::from("player_1"), &request());
    assert_eq!(text, "player_1");
}

fn element(text: &str, x: i32, y: i32) -> PositionedText {
    PositionedText { text: String::from(text), x, y, scale_milli: 48_000, theta_milli: -120 }
}

#[test]
fn resolve_texts_keeps_order_and_anchors() {
    let config = Config {
        width: 1280,
        height: 720,
        base_path: String::from("static"),
        char_img_path: String::from("chars"),
        font: String::from("font.ttf"),
        background_images: Vec::new(),
        foreground_images: Vec::new(),
        positioned_texts: vec![
            element("PLAYER_1", 100, 100),
            element("vs", 640, 360),
            element("PLAYER_2", 1180, 100),
        ],
    };
    let resolved = resolve_texts(&config, &request());
    assert_eq!(resolved.len(), 3);
    assert_eq!(resolved[0].text, "Alice");
    assert_eq!(resolved[1].text, "vs");
    assert_eq!(resolved[2].text, "Bob");
    assert_eq!(resolved[0].x, 100);
    assert_eq!(resolved[0].y, 100);
    assert_eq!(resolved[2].x, 1180);
    assert_eq!(resolved[1].scale_milli, 48_000);
    assert_eq!(resolved[1].theta_milli, -120);
}

#[test]
fn unrotated_text_centered_on_anchor() {
    // An extent of 40 x 20 placed for anchor (100, 100) starts at (80, 90),
    // so the box's midpoint is the anchor again.
    let (left, top) = centered_top_left(100, 100, 40, 20);
    assert_eq!((left, top), (80, 90));
    assert_eq!(left + 40 / 2, 100);
    assert_eq!(top + 20 / 2, 100);
}

#[test]
fn odd_extent_truncates_toward_zero() {
    let (left, top) = centered_top_left(10, 10, 5, 3);
    assert_eq!((left, top), (8, 9));
}
