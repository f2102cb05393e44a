use map_layer::{Layer, Layout, LayoutProperty, Paint, Token};

fn key(k: &str) -> Token {
    Token::Key(k.to_string())
}

fn text(s: &str) -> Token {
    Token::Str(s.to_string())
}

#[test]
fn bare_layer_serializes_three_keys() {
    let layer = Layer::new("water", "fill", "composite");
    assert_eq!(
        layer.to_tokens(),
        vec![
            Token::ObjectStart,
            key("id"),
            text("water"),
            key("type"),
            text("fill"),
            key("source"),
            text("composite"),
            Token::ObjectEnd,
        ]
    );
}

#[test]
fn new_layer_keeps_fields_and_has_no_records() {
    let layer = Layer::new("roads", "line", "streets");
    assert_eq!(layer.id, "roads");
    assert_eq!(layer.layer_type, "line");
    assert_eq!(layer.source, "streets");
    assert!(layer.layout.is_none());
    assert!(layer.paint.is_none());
}

#[test]
fn new_layer_accepts_empty_strings() {
    let layer = Layer::new("", "", "");
    assert_eq!(
        layer.to_tokens(),
        vec![
            Token::ObjectStart,
            key("id"),
            text(""),
            key("type"),
            text(""),
            key("source"),
            text(""),
            Token::ObjectEnd,
        ]
    );
}

#[test]
fn empty_layout_appears_as_empty_object() {
    let mut layer = Layer::new("a", "symbol", "s");
    layer.layout = Some(Layout::default());
    let tokens = layer.to_tokens();
    assert_eq!(tokens.len(), 11);
    assert_eq!(tokens[7..10], [key("layout"), Token::ObjectStart, Token::ObjectEnd]);
    assert_eq!(tokens[10], Token::ObjectEnd);
}

#[test]
fn empty_paint_appears_as_empty_object() {
    let mut layer = Layer::new("a", "line", "s");
    layer.paint = Some(Paint::default());
    let tokens = layer.to_tokens();
    assert_eq!(
        tokens[7..],
        [key("paint"), Token::ObjectStart, Token::ObjectEnd, Token::ObjectEnd]
    );
}

#[test]
fn layout_comes_before_paint() {
    let mut layer = Layer::new("a", "line", "s");
    layer.layout = Some(Layout::default());
    layer.paint = Some(Paint::default());
    let tokens = layer.to_tokens();
    assert_eq!(
        tokens[7..],
        [
            key("layout"),
            Token::ObjectStart,
            Token::ObjectEnd,
            key("paint"),
            Token::ObjectStart,
            Token::ObjectEnd,
            Token::ObjectEnd,
        ]
    );
}

#[test]
fn icon_image_alone_under_layout() {
    let mut layer = Layer::new("poi", "symbol", "composite");
    let mut layout = Layout::default();
    layout.icon_image = Some(LayoutProperty::from("marker-15"));
    layer.layout = Some(layout);
    let tokens = layer.to_tokens();
    assert_eq!(
        tokens[7..],
        [
            key("layout"),
            Token::ObjectStart,
            key("icon-image"),
            text("marker-15"),
            Token::ObjectEnd,
            Token::ObjectEnd,
        ]
    );
}

#[test]
fn text_offset_serializes_as_pair() {
    let mut layout = Layout::default();
    layout.text_offset = Some((0, -4));
    assert_eq!(
        layout.to_tokens(),
        vec![
            Token::ObjectStart,
            key("text-offset"),
            Token::SeqStart,
            Token::Int(0),
            Token::Int(-4),
            Token::SeqEnd,
            Token::ObjectEnd,
        ]
    );
}

#[test]
fn text_offset_keeps_extremes_and_order() {
    let mut layout = Layout::default();
    layout.text_offset = Some((i32::MAX, i32::MIN));
    let tokens = layout.to_tokens();
    assert_eq!(
        tokens[1..6],
        [
            key("text-offset"),
            Token::SeqStart,
            Token::Int(2147483647),
            Token::Int(-2147483648),
            Token::SeqEnd,
        ]
    );
}

#[test]
fn unset_layout_fields_have_no_key() {
    let mut layout = Layout::default();
    layout.line_cap = Some(LayoutProperty::from("round"));
    layout.text_allow_overlap = Some(true);
    let tokens = layout.to_tokens();
    assert_eq!(
        tokens,
        vec![
            Token::ObjectStart,
            key("line-cap"),
            text("round"),
            key("text-allow-overlap"),
            Token::Bool(true),
            Token::ObjectEnd,
        ]
    );
    for k in ["line-join", "icon-image", "icon-size", "text-anchor", "text-field", "text-offset",
        "text-size", "icon-allow-overlap"] {
        assert!(!tokens.contains(&key(k)));
    }
}

#[test]
fn full_layout_in_field_order() {
    let layout = Layout {
        line_join: Some(LayoutProperty::from("miter")),
        line_cap: Some(LayoutProperty::from("butt")),
        icon_image: Some(LayoutProperty::from(("get", "icon"))),
        icon_size: Some(LayoutProperty::from_bits(0.25f64.to_bits())),
        text_anchor: Some(LayoutProperty::from("top")),
        text_field: Some(LayoutProperty::from(("get".to_string(), "name".to_string()))),
        text_offset: Some((1, 2)),
        text_size: Some(LayoutProperty::from_bits(12.0f64.to_bits())),
        icon_allow_overlap: Some(false),
        text_allow_overlap: Some(true),
    };
    assert_eq!(
        layout.to_tokens(),
        vec![
            Token::ObjectStart,
            key("line-join"),
            text("miter"),
            key("line-cap"),
            text("butt"),
            key("icon-image"),
            Token::SeqStart,
            text("get"),
            text("icon"),
            Token::SeqEnd,
            key("icon-size"),
            Token::Number(0.25f64.to_bits()),
            key("text-anchor"),
            text("top"),
            key("text-field"),
            Token::SeqStart,
            text("get"),
            text("name"),
            Token::SeqEnd,
            key("text-offset"),
            Token::SeqStart,
            Token::Int(1),
            Token::Int(2),
            Token::SeqEnd,
            key("text-size"),
            Token::Number(12.0f64.to_bits()),
            key("icon-allow-overlap"),
            Token::Bool(false),
            key("text-allow-overlap"),
            Token::Bool(true),
            Token::ObjectEnd,
        ]
    );
}

#[test]
fn string_property_is_bare_string() {
    assert_eq!(LayoutProperty::from("marker-15").to_tokens(), vec![text("marker-15")]);
    assert_eq!(
        LayoutProperty::from("owned".to_string()).to_tokens(),
        vec![text("owned")]
    );
}

#[test]
fn number_property_is_bare_number() {
    let p = LayoutProperty::from_bits((-1.5f64).to_bits());
    assert_eq!(p.to_tokens(), vec![Token::Number((-1.5f64).to_bits())]);
    match p {
        LayoutProperty::Number(bits) => assert_eq!(f64::from_bits(bits), -1.5),
        _ => panic!("expected a number"),
    }
}

#[test]
fn feature_property_keeps_order() {
    let p = LayoutProperty::from(("get", "icon"));
    assert_eq!(
        p.to_tokens(),
        vec![Token::SeqStart, text("get"), text("icon"), Token::SeqEnd]
    );
    match p {
        LayoutProperty::FeatureProperty((verb, name)) => {
            assert_eq!(verb, "get");
            assert_eq!(name, "icon");
        }
        _ => panic!("expected a feature property"),
    }
}

#[test]
fn property_clone_is_equal_shape() {
    let p = LayoutProperty::from(("get", "icon"));
    assert_eq!(p.clone().to_tokens(), p.to_tokens());
}

#[test]
fn paint_fields_in_order() {
    let paint = Paint {
        line_color: Some("#ff0000".to_string()),
        line_width: Some(u32::MAX),
        text_halo_width: Some(1.5f64.to_bits()),
        text_halo_color: Some("white".to_string()),
    };
    assert_eq!(
        paint.to_tokens(),
        vec![
            Token::ObjectStart,
            key("line-color"),
            text("#ff0000"),
            key("line-width"),
            Token::Int(4294967295),
            key("text-halo-width"),
            Token::Number(1.5f64.to_bits()),
            key("text-halo-color"),
            text("white"),
            Token::ObjectEnd,
        ]
    );
}

#[test]
fn paint_unset_fields_left_out() {
    let mut paint = Paint::default();
    paint.line_width = Some(3);
    assert_eq!(
        paint.to_tokens(),
        vec![Token::ObjectStart, key("line-width"), Token::Int(3), Token::ObjectEnd]
    );
}

#[test]
fn write_tokens_appends() {
    let mut out = vec![Token::Bool(true)];
    Layer::new("x", "fill", "y").write_tokens(&mut out);
    assert_eq!(out.len(), 9);
    assert_eq!(out[0], Token::Bool(true));
    assert_eq!(out[1], Token::ObjectStart);
    assert_eq!(out[8], Token::ObjectEnd);
}

#[test]
fn layer_clone_serializes_the_same() {
    let mut layer = Layer::new("labels", "symbol", "composite");
    let mut layout = Layout::default();
    layout.text_field = Some(LayoutProperty::from(("get", "name")));
    layout.text_offset = Some((0, -4));
    layer.layout = Some(layout);
    let mut paint = Paint::default();
    paint.text_halo_color = Some("black".to_string());
    layer.paint = Some(paint);
    let copy = layer.clone();
    assert_eq!(copy.to_tokens(), layer.to_tokens());
    assert_eq!(copy.id, "labels");
}
