use fast_qr::convert::Builder;
use fast_qr_py::{Color, ImageBackgroundShape, QRBuilder, Shape, SvgBuilder};

fn qr(data: &str) -> fast_qr_py::QRCode {
    QRBuilder::new(data.as_bytes().to_vec()).build().unwrap()
}

#[test]
fn svg_defaults() {
    let b = SvgBuilder::new();
    assert_eq!(b.margin, 4);
    assert_eq!(b.module_color.as_str(), "#000000");
    assert_eq!(b.background_color.as_str(), "#ffffff");
    assert!(b.layers.is_empty());
    assert!(b.image.is_none());
    assert_eq!(b.image_background_color.as_str(), "#ffffff");
    assert_eq!(b.image_background_shape, ImageBackgroundShape::Square);
}

#[test]
fn svg_default_matches_fast_qr_default() {
    let code = fast_qr::QRBuilder::new("svg default").build().unwrap();
    let ours = SvgBuilder::new().to_str(&qr("svg default"));
    let theirs = fast_qr::convert::svg::SvgBuilder::default().to_str(&code);
    assert_eq!(ours, theirs);
    assert!(ours.starts_with(r#"<svg viewBox="0 0 29 29""#));
}

#[test]
fn svg_margin_sets_view_box() {
    let mut b = SvgBuilder::new();
    b.margin(0);
    let s = b.to_str(&qr("margin"));
    assert!(s.starts_with(r#"<svg viewBox="0 0 21 21""#));
    b.margin(10);
    let s = b.to_str(&qr("margin"));
    assert!(s.starts_with(r#"<svg viewBox="0 0 41 41""#));
}

#[test]
fn svg_style_reaches_the_renderer() {
    let mut b = SvgBuilder::new();
    b.margin(2);
    b.module_color(Color::from_text("#1a1a1a".to_string()));
    b.background_color(Color::from_text("#fafafa".to_string()));
    b.shape(Shape::Circle);
    b.shape_color(Shape::RoundedSquare, Color::from_text("#ff0000".to_string()));
    b.image("data:image/png;base64,AAAA".to_string());
    b.image_background_color(Color::from_text("#00ff00".to_string()));
    b.image_background_shape(ImageBackgroundShape::Circle);
    let ours = b.to_str(&qr("style"));

    let code = fast_qr::QRBuilder::new("style").build().unwrap();
    let mut d = fast_qr::convert::svg::SvgBuilder::default();
    d.margin(2);
    d.module_color("#1a1a1a");
    d.background_color("#fafafa");
    d.shape(fast_qr::convert::Shape::Circle);
    d.shape_color(fast_qr::convert::Shape::RoundedSquare, "#ff0000");
    d.image("data:image/png;base64,AAAA".to_string());
    d.image_background_color("#00ff00");
    d.image_background_shape(fast_qr::convert::ImageBackgroundShape::Circle);
    assert_eq!(ours, d.to_str(&code));
    assert!(ours.contains(r##"fill="#fafafa""##));
    assert!(ours.contains(r##"fill="#1a1a1a""##));
    assert!(ours.contains(r##"fill="#ff0000""##));
    assert!(ours.contains(r##"fill="#00ff00""##));
    assert!(ours.contains("data:image/png;base64,AAAA"));
}

#[test]
fn svg_setters_record_the_style() {
    let mut b = SvgBuilder::new();
    b.shape(Shape::Diamond);
    b.shape_color(Shape::Vertical, Color::from_text("blue".to_string()));
    assert_eq!(b.layers.len(), 2);
    assert_eq!(b.layers[0].shape, Shape::Diamond);
    assert!(b.layers[0].color.is_none());
    assert_eq!(b.layers[1].shape, Shape::Vertical);
    assert_eq!(b.layers[1].color.as_ref().unwrap().as_str(), "blue");
    b.image("logo.png".to_string());
    assert_eq!(b.image.as_deref(), Some("logo.png"));
}
