use fast_qr_py::{Color, ColorInput, Error};

#[test]
fn color_text_is_kept_as_given() {
    let c = Color::new(ColorInput::Text("red".to_string())).unwrap();
    assert_eq!(c.as_str(), "red");
    let c = Color::new(ColorInput::Text("#1a1a1a".to_string())).unwrap();
    assert_eq!(c.as_str(), "#1a1a1a");
}

#[test]
fn color_three_channels_give_rrggbb() {
    let c = Color::new(ColorInput::Channels(vec![255, 0, 16])).unwrap();
    assert_eq!(c.as_str(), "#ff0010");
    let c = Color::new(ColorInput::Channels(vec![0xab, 0xcd, 0xef])).unwrap();
    assert_eq!(c.as_str(), "#abcdef");
}

#[test]
fn color_four_channels_give_rrggbbaa() {
    let c = Color::new(ColorInput::Channels(vec![1, 2, 3, 255])).unwrap();
    assert_eq!(c.as_str(), "#010203ff");
    let c = Color::new(ColorInput::Channels(vec![0, 0, 0, 0])).unwrap();
    assert_eq!(c.as_str(), "#00000000");
}

#[test]
fn color_other_channel_counts_are_refused() {
    assert_eq!(
        Color::new(ColorInput::Channels(vec![1, 2])).unwrap_err(),
        Error::ColorChannelCount(2)
    );
    assert_eq!(
        Color::new(ColorInput::Channels(vec![1, 2, 3, 4, 5])).unwrap_err(),
        Error::ColorChannelCount(5)
    );
    assert_eq!(
        Color::new(ColorInput::Channels(vec![])).unwrap_err(),
        Error::ColorChannelCount(0)
    );
}

#[test]
fn colors_compare_by_string() {
    let a = Color::from_text("#000000".to_string());
    let b = Color::new(ColorInput::Channels(vec![0, 0, 0])).unwrap();
    let c = Color::from_text("black".to_string());
    assert!(a.same_as(&b));
    assert!(!a.same_as(&c));
}

#[test]
fn channel_colors_are_css_hex() {
    for channels in [vec![9u8, 10, 11], vec![200, 100, 50, 25]] {
        let c = Color::new(ColorInput::Channels(channels.clone())).unwrap();
        let s = c.as_str();
        assert_eq!(s.len(), 1 + 2 * channels.len());
        assert!(s.starts_with('#'));
        assert!(s[1..].chars().all(|ch| ch.is_ascii_digit() || ('a'..='f').contains(&ch)));
    }
}

#[test]
fn color_text_form_quotes_the_string() {
    assert_eq!(Color::from_text("red".to_string()).repr(), "Color(\"red\")");
    assert_eq!(Color::from_text("a\"b".to_string()).repr(), "Color(\"a\\\"b\")");
    let c = Color::new(ColorInput::Channels(vec![1, 2, 3])).unwrap();
    assert_eq!(c.repr(), format!("Color({:?})", "#010203"));
}
