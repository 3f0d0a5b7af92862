use fast_qr_py::{ImageBackgroundShape, Mask, Mode, Shape, ECL};

#[test]
fn ecl_repr_names_each_level() {
    assert_eq!(ECL::L.repr(), "ECL.L");
    assert_eq!(ECL::M.repr(), "ECL.M");
    assert_eq!(ECL::Q.repr(), "ECL.Q");
    assert_eq!(ECL::H.repr(), "ECL.H");
}

#[test]
fn mode_repr_names_each_mode() {
    assert_eq!(Mode::Numeric.repr(), "Mode.Numeric");
    assert_eq!(Mode::Alphanumeric.repr(), "Mode.Alphanumeric");
    assert_eq!(Mode::Byte.repr(), "Mode.Byte");
}

#[test]
fn mask_repr_follows_variant_name() {
    let all = [
        (Mask::Checkerboard, "Mask.Checkerboard"),
        (Mask::HorizontalLines, "Mask.HorizontalLines"),
        (Mask::VerticalLines, "Mask.VerticalLines"),
        (Mask::DiagonalLines, "Mask.DiagonalLines"),
        (Mask::LargeCheckerboard, "Mask.LargeCheckerboard"),
        (Mask::Fields, "Mask.Fields"),
        (Mask::Diamonds, "Mask.Diamonds"),
        (Mask::Meadow, "Mask.Meadow"),
    ];
    for (m, name) in all {
        assert_eq!(m.repr(), name);
        assert_eq!(format!("Mask.{:?}", m), name);
    }
}

#[test]
fn shape_repr_follows_variant_name() {
    let all = [
        Shape::Square,
        Shape::Circle,
        Shape::RoundedSquare,
        Shape::Vertical,
        Shape::Horizontal,
        Shape::Diamond,
    ];
    for s in all {
        assert_eq!(s.repr(), format!("Shape.{:?}", s));
    }
    assert_eq!(Shape::RoundedSquare.repr(), "Shape.RoundedSquare");
}

#[test]
fn image_background_shape_repr_follows_variant_name() {
    assert_eq!(ImageBackgroundShape::Square.repr(), "ImageBackgroundShape.Square");
    assert_eq!(ImageBackgroundShape::Circle.repr(), "ImageBackgroundShape.Circle");
    assert_eq!(
        ImageBackgroundShape::RoundedSquare.repr(),
        "ImageBackgroundShape.RoundedSquare"
    );
}

#[test]
fn enums_compare_by_variant() {
    assert_eq!(ECL::Q, ECL::Q);
    assert_ne!(ECL::Q, ECL::H);
    assert_ne!(Mode::Byte, Mode::Numeric);
    assert_eq!(Mask::Meadow, Mask::Meadow);
}
