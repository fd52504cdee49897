use road_sign::color::{parse_hex_color, resolve, Rgb};
use road_sign::error::SignError;
use road_sign::markup::{attr_value, parse, DrawIntent};
use road_sign::scene::{compile, SceneGraph, Shape, SignState, Tag, LIMIT_MAX, LIMIT_MIN};
use road_sign::text::{check_number, check_positive_number, decimal_string};

const TEMPLATE: &str = "
<svg width=\"300\" height=\"300\" viewBox=\"0 0 300 300\" fill=\"none\" xmlns=\"http://www.w3.org/2000/svg\">
<path d=\"M300 150C300 232.843 232.843 300 150 300C67.1573 300 0 232.843 0 150C0 67.1572 67.1573 0 150 0C232.843 0 300 67.1572 300 150Z\" fill=\"000000\"/>
<path d=\"M297 150C297 231.186 231.186 297 150 297C68.8141 297 3 231.186 3 150C3 68.8141 68.8141 3 150 3C231.186 3 297 68.8141 297 150Z\" fill=\"white\"/>
<circle cx=\"150\" cy=\"150\" r=\"142\" fill=\"FF0000\"/>
<circle cx=\"150\" cy=\"150\" r=\"119\" fill=\"white\" tempMarker=\"true\"/>
<text-placeholder value=\"50\"/>
</svg>
";

fn rgb(r: u8, g: u8, b: u8) -> Rgb {
    Rgb { r, g, b }
}

fn default_scene() -> SceneGraph {
    compile(TEMPLATE, SignState::default()).unwrap()
}

#[test]
fn resolve_known_names_absent_and_hex() {
    assert_eq!(resolve(Some("red")), Ok(rgb(255, 0, 0)));
    assert_eq!(resolve(None), Ok(rgb(0, 0, 0)));
    assert_eq!(resolve(Some("FF00FF")), Ok(rgb(255, 0, 255)));
    assert_eq!(resolve(Some("zz")), Err(SignError::InvalidColorLiteral));
}

#[test]
fn resolve_whole_table() {
    assert_eq!(resolve(Some("white")), Ok(rgb(255, 255, 255)));
    assert_eq!(resolve(Some("green")), Ok(rgb(0, 255, 0)));
    assert_eq!(resolve(Some("purple")), Ok(rgb(191, 64, 191)));
    assert_eq!(resolve(Some("blue")), Ok(rgb(0, 0, 255)));
}

#[test]
fn resolve_is_case_sensitive_for_names() {
    assert_eq!(resolve(Some("Red")), Err(SignError::InvalidColorLiteral));
    assert_eq!(resolve(Some("black")), Err(SignError::InvalidColorLiteral));
}

#[test]
fn hex_literal_forms() {
    assert_eq!(parse_hex_color("0a1B2c"), Some(rgb(10, 27, 44)));
    assert_eq!(parse_hex_color("#FF0000"), None);
    assert_eq!(parse_hex_color("FF000"), None);
    assert_eq!(parse_hex_color("FF00G0"), None);
    assert_eq!(parse_hex_color(""), None);
}

#[test]
fn canonical_template_parses_in_order() {
    let desc = parse(TEMPLATE).unwrap();
    assert_eq!(desc.len(), 5);
    assert!(matches!(&desc[0], DrawIntent::Path { fill, .. } if *fill == rgb(0, 0, 0)));
    assert!(matches!(&desc[1], DrawIntent::Path { fill, .. } if *fill == rgb(255, 255, 255)));
    assert!(matches!(&desc[2], DrawIntent::Circle { radius, temp_marker: false, fill, .. }
        if radius == "142" && *fill == rgb(255, 0, 0)));
    assert!(matches!(&desc[3], DrawIntent::Circle { radius, temp_marker: true, .. } if radius == "119"));
    assert!(matches!(&desc[4], DrawIntent::TextPlaceholder { initial_value } if initial_value == "50"));
    let markers = desc
        .iter()
        .filter(|d| matches!(d, DrawIntent::Circle { temp_marker: true, .. }))
        .count();
    assert_eq!(markers, 1);
}

#[test]
fn path_commands_are_kept_verbatim() {
    let desc = parse("<path d=\"M0 0L1 1Z\" fill=\"blue\"/>").unwrap();
    assert_eq!(
        desc,
        vec![DrawIntent::Path { commands: "M0 0L1 1Z".to_string(), fill: rgb(0, 0, 255) }]
    );
}

#[test]
fn unknown_tags_are_skipped() {
    let desc = parse("<g><rect x=\"1\"/><text-placeholder value=\"7\"/></g>").unwrap();
    assert_eq!(desc, vec![DrawIntent::TextPlaceholder { initial_value: "7".to_string() }]);
    assert_eq!(parse("no tags at all"), Ok(vec![]));
    assert_eq!(parse(""), Ok(vec![]));
}

#[test]
fn missing_attributes_are_malformed() {
    assert_eq!(parse("<circle cx=\"1\" cy=\"2\"/>"), Err(SignError::MalformedMarkup));
    assert_eq!(parse("<path fill=\"red\"/>"), Err(SignError::MalformedMarkup));
    assert_eq!(parse("<text-placeholder/>"), Err(SignError::MalformedMarkup));
}

#[test]
fn bad_numbers_are_malformed() {
    assert_eq!(parse("<circle cx=\"a\" cy=\"2\" r=\"3\"/>"), Err(SignError::MalformedMarkup));
    assert_eq!(parse("<circle cx=\"1\" cy=\"2\" r=\"0\"/>"), Err(SignError::MalformedMarkup));
    assert_eq!(parse("<circle cx=\"1\" cy=\"2\" r=\"-3\"/>"), Err(SignError::MalformedMarkup));
    let ok = parse("<circle cx=\"-1.5\" cy=\"2\" r=\"0.5\"/>").unwrap();
    assert_eq!(
        ok,
        vec![DrawIntent::Circle {
            cx: "-1.5".to_string(),
            cy: "2".to_string(),
            radius: "0.5".to_string(),
            fill: rgb(0, 0, 0),
            temp_marker: false,
        }]
    );
}

#[test]
fn bad_fill_in_markup_is_invalid_color() {
    assert_eq!(parse("<path d=\"M0 0\" fill=\"#FF0000\"/>"), Err(SignError::InvalidColorLiteral));
}

#[test]
fn empty_temp_marker_is_false() {
    let desc = parse("<circle cx=\"1\" cy=\"2\" r=\"3\" tempMarker=\"\"/>").unwrap();
    assert!(matches!(&desc[0], DrawIntent::Circle { temp_marker: false, .. }));
}

#[test]
fn attribute_lookup() {
    assert_eq!(attr_value("circle cx=\"1\" r=\"9\"", "r"), Some("9"));
    assert_eq!(attr_value("circle cx=\"1\"", "x"), None);
    assert_eq!(attr_value("circle cx=\"1", "cx"), None);
}

#[test]
fn number_forms() {
    assert!(check_number("150"));
    assert!(check_number("-2.25"));
    assert!(check_number("1."));
    assert!(check_number(".5"));
    assert!(check_number("+1"));
    assert!(check_number("1e3"));
    assert!(check_number("1E-2"));
    assert!(check_number("-.5e+7"));
    assert!(!check_number("1.2.3"));
    assert!(!check_number("."));
    assert!(!check_number("-"));
    assert!(!check_number(""));
    assert!(!check_number("e5"));
    assert!(!check_number("1e"));
    assert!(!check_number("1e+"));
    assert!(!check_number("1e2e3"));
    assert!(!check_number("--1"));
    assert!(check_positive_number("0.01"));
    assert!(check_positive_number("+2e-1"));
    assert!(check_positive_number("5."));
    assert!(!check_positive_number("0.00"));
    assert!(!check_positive_number("0e5"));
    assert!(!check_positive_number("-1"));
}

#[test]
fn float_literals_in_markup() {
    let desc = parse("<circle cx=\"1e3\" cy=\".5\" r=\"1.\"/>").unwrap();
    assert_eq!(
        desc,
        vec![DrawIntent::Circle {
            cx: "1e3".to_string(),
            cy: ".5".to_string(),
            radius: "1.".to_string(),
            fill: rgb(0, 0, 0),
            temp_marker: false,
        }]
    );
    let t = TEMPLATE.replace("cx=\"150\" cy=\"150\" r=\"142\"", "cx=\"1.5E2\" cy=\"+150\" r=\"142\"");
    assert!(compile(&t, SignState::default()).is_ok());
    assert_eq!(parse("<circle cx=\"1\" cy=\"2\" r=\"0e5\"/>"), Err(SignError::MalformedMarkup));
}

#[test]
fn decimal_numerals() {
    assert_eq!(decimal_string(0), "0");
    assert_eq!(decimal_string(5), "5");
    assert_eq!(decimal_string(110), "110");
    assert_eq!(decimal_string(u32::MAX), "4294967295");
}

#[test]
fn default_state() {
    let st = SignState::default();
    assert_eq!(st, SignState { limit: 90, is_temp: false });
}

#[test]
fn build_with_default_state() {
    let g = default_scene();
    assert_eq!(g.temp_background_fill(), Some(rgb(255, 255, 255)));
    assert_eq!(g.limit_text(), Some("90".to_string()));
    assert_eq!(g.entities().len(), 5);
    let text = &g.entities()[4];
    assert_eq!(text.tag, Some(Tag::LimitText));
    assert!(matches!(&text.shape, Shape::Text { right_aligned: true, .. }));
    assert_eq!(g.entities()[3].tag, Some(Tag::TempBackground));
    assert_eq!(g.entities()[2].fill, rgb(255, 0, 0));
    assert_eq!(g.entities()[0].tag, None);
}

#[test]
fn build_with_temp_state_is_yellow() {
    let g = compile(TEMPLATE, SignState { limit: 60, is_temp: true }).unwrap();
    assert_eq!(g.temp_background_fill(), Some(rgb(255, 255, 0)));
    assert_eq!(g.limit_text(), Some("60".to_string()));
}

#[test]
fn apply_limit_shows_decimal_for_every_control_value() {
    let mut g = default_scene();
    for v in LIMIT_MIN..=LIMIT_MAX {
        assert_eq!(g.apply_limit(v), Ok(()));
        assert_eq!(g.limit_text(), Some(v.to_string()));
    }
}

#[test]
fn apply_limit_touches_only_the_text() {
    let mut g = default_scene();
    let before = g.entities().clone();
    g.apply_limit(30).unwrap();
    for i in 0..4 {
        assert_eq!(g.entities()[i], before[i]);
    }
    assert_eq!(g.entities()[4].fill, before[4].fill);
}

#[test]
fn temp_flag_round_trip() {
    let mut g = default_scene();
    let before = g.entities().clone();
    assert_eq!(g.apply_temp_flag(true), Ok(()));
    assert_eq!(g.temp_background_fill(), Some(rgb(255, 255, 0)));
    assert_eq!(g.apply_temp_flag(false), Ok(()));
    assert_eq!(g.entities(), &before);
}

#[test]
fn apply_limit_twice_is_once() {
    let mut once = default_scene();
    once.apply_limit(90).unwrap();
    let mut twice = default_scene();
    twice.apply_limit(90).unwrap();
    twice.apply_limit(90).unwrap();
    assert_eq!(once.entities(), twice.entities());
}

#[test]
fn updates_on_an_unbuilt_scene_are_skipped() {
    let mut g = SceneGraph::new();
    assert_eq!(g.apply_limit(50), Err(SignError::MissingTaggedEntity));
    assert_eq!(g.apply_temp_flag(true), Err(SignError::MissingTaggedEntity));
    assert!(g.entities().is_empty());
    assert_eq!(g.limit_text(), None);
}

#[test]
fn build_needs_each_tag_once() {
    let no_text = "<circle cx=\"1\" cy=\"1\" r=\"1\" tempMarker=\"true\"/>";
    assert_eq!(compile(no_text, SignState::default()).err(), Some(SignError::MissingTaggedEntity));
    let two_texts = "<text-placeholder value=\"1\"/><circle cx=\"1\" cy=\"1\" r=\"1\" tempMarker=\"x\"/><text-placeholder value=\"2\"/>";
    assert_eq!(compile(two_texts, SignState::default()).err(), Some(SignError::DuplicateTaggedEntity));
    let desc = parse(two_texts).unwrap();
    assert_eq!(SceneGraph::build(&desc, SignState::default()).err(), Some(SignError::DuplicateTaggedEntity));
}
