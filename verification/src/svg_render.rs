//! The hand-off to `fast_qr`'s SVG renderer.
//!
//! A [`SvgRenderer`] is a `fast_qr::convert::svg::SvgBuilder` together with
//! the style it has been given. Only the functions of this module create or
//! change one, and each of them hands exactly the recorded setting to
//! `fast_qr`, so the recorded style is what the renderer holds.

use vstd::prelude::*;

use fast_qr::convert::svg::SvgBuilder as FastQrSvgBuilder;
use fast_qr::convert::Builder as FastQrRenderSettings;
use fast_qr::convert::ImageBackgroundShape as FastQrImageBackgroundShape;
use fast_qr::convert::Shape as FastQrShape;
use fast_qr::QRCode as FastQrCode;

use crate::options::{ImageBackgroundShape, Shape};
use crate::symbol::{is_symbol_side, qr_modules, qr_size};

verus! {

#[verifier::external_type_specification]
#[verifier::external_body]
pub struct ExFastQrSvgBuilder(FastQrSvgBuilder);

/// The style of an SVG rendering, with colors as CSS color strings.
pub struct SvgStyle {
    /// Quiet-zone margin, in modules.
    pub margin: nat,
    pub module_color: Seq<char>,
    pub background_color: Seq<char>,
    /// The shape layers drawn for every dark module, in order, each with its
    /// own color or (`None`) the module color; with no layer, squares in the
    /// module color are drawn.
    pub layers: Seq<(Shape, Option<Seq<char>>)>,
    /// The embedded image: a path or a base64 data URI.
    pub image: Option<Seq<char>>,
    pub image_background_color: Seq<char>,
    pub image_background_shape: ImageBackgroundShape,
}

/// The style `fast_qr` starts from: margin 4, black modules on white, no
/// layer, no image, a white square behind an image.
pub open spec fn default_style() -> SvgStyle {
    SvgStyle {
        margin: 4,
        module_color: "#000000"@,
        background_color: "#ffffff"@,
        layers: Seq::empty(),
        image: None,
        image_background_color: "#ffffff"@,
        image_background_shape: ImageBackgroundShape::Square,
    }
}

/// The SVG document `fast_qr::convert::svg::SvgBuilder::to_str` writes for a
/// symbol of side `side` and module values `modules` in style `style` (with
/// the image size, gap and position left to `fast_qr`).
pub uninterp spec fn svg_markup(style: SvgStyle, side: nat, modules: Seq<bool>) -> Seq<char>;

/// A `fast_qr` SVG builder with the style it holds.
pub(crate) struct SvgRenderer {
    builder: FastQrSvgBuilder,
    style: Ghost<SvgStyle>,
}

impl View for SvgRenderer {
    type V = SvgStyle;

    closed spec fn view(&self) -> SvgStyle {
        self.style@
    }
}

/// Calls `fast_qr::convert::svg::SvgBuilder::default` (whose colors come
/// from `rgba2hex`, which leaves out an opaque alpha channel).
#[verifier::external_body]
pub(crate) fn renderer_new() -> (r: SvgRenderer)
    ensures
        r@ == default_style(),
{
    SvgRenderer { builder: FastQrSvgBuilder::default(), style: Ghost(default_style()) }
}

/// Calls `Builder::margin` of the SVG builder, which sets the margin.
#[verifier::external_body]
pub(crate) fn renderer_margin(r: &mut SvgRenderer, margin: usize)
    ensures
        final(r)@ == (SvgStyle { margin: margin as nat, ..old(r)@ }),
{
    r.builder.margin(margin);
}

/// Calls `Builder::module_color` of the SVG builder with a color string.
#[verifier::external_body]
pub(crate) fn renderer_module_color(r: &mut SvgRenderer, color: &str)
    ensures
        final(r)@ == (SvgStyle { module_color: color@, ..old(r)@ }),
{
    r.builder.module_color(color);
}

/// Calls `Builder::background_color` of the SVG builder with a color string.
#[verifier::external_body]
pub(crate) fn renderer_background_color(r: &mut SvgRenderer, color: &str)
    ensures
        final(r)@ == (SvgStyle { background_color: color@, ..old(r)@ }),
{
    r.builder.background_color(color);
}

/// Calls `Builder::shape` of the SVG builder, which appends a layer drawn in
/// the module color.
#[verifier::external_body]
pub(crate) fn renderer_add_shape(r: &mut SvgRenderer, shape: Shape)
    ensures
        final(r)@ == (SvgStyle { layers: old(r)@.layers.push((shape, None)), ..old(r)@ }),
{
    r.builder.shape(match shape {
        Shape::Square => FastQrShape::Square,
        Shape::Circle => FastQrShape::Circle,
        Shape::RoundedSquare => FastQrShape::RoundedSquare,
        Shape::Vertical => FastQrShape::Vertical,
        Shape::Horizontal => FastQrShape::Horizontal,
        Shape::Diamond => FastQrShape::Diamond,
    });
}

/// Calls `Builder::shape_color` of the SVG builder, which appends a layer
/// drawn in its own color.
#[verifier::external_body]
pub(crate) fn renderer_add_colored_shape(r: &mut SvgRenderer, shape: Shape, color: &str)
    ensures
        final(r)@ == (SvgStyle { layers: old(r)@.layers.push((shape, Some(color@))), ..old(r)@ }),
{
    r.builder.shape_color(
        match shape {
            Shape::Square => FastQrShape::Square,
            Shape::Circle => FastQrShape::Circle,
            Shape::RoundedSquare => FastQrShape::RoundedSquare,
            Shape::Vertical => FastQrShape::Vertical,
            Shape::Horizontal => FastQrShape::Horizontal,
            Shape::Diamond => FastQrShape::Diamond,
        },
        color,
    );
}

/// Calls `Builder::image` of the SVG builder, which sets the image.
#[verifier::external_body]
pub(crate) fn renderer_image(r: &mut SvgRenderer, image: &str)
    ensures
        final(r)@ == (SvgStyle { image: Some(image@), ..old(r)@ }),
{
    r.builder.image(image.to_string());
}

/// Calls `Builder::image_background_color` of the SVG builder.
#[verifier::external_body]
pub(crate) fn renderer_image_background_color(r: &mut SvgRenderer, color: &str)
    ensures
        final(r)@ == (SvgStyle { image_background_color: color@, ..old(r)@ }),
{
    r.builder.image_background_color(color);
}

/// Calls `Builder::image_background_shape` of the SVG builder.
#[verifier::external_body]
pub(crate) fn renderer_image_background_shape(r: &mut SvgRenderer, shape: ImageBackgroundShape)
    ensures
        final(r)@ == (SvgStyle { image_background_shape: shape, ..old(r)@ }),
{
    r.builder.image_background_shape(match shape {
        ImageBackgroundShape::Square => FastQrImageBackgroundShape::Square,
        ImageBackgroundShape::Circle => FastQrImageBackgroundShape::Circle,
        ImageBackgroundShape::RoundedSquare => FastQrImageBackgroundShape::RoundedSquare,
    });
}

/// Calls `fast_qr::convert::svg::SvgBuilder::to_str`. It adds the margin
/// twice to the side (hence the bound) and looks up the symbol's version from
/// its side, which must be a symbol side.
#[verifier::external_body]
pub(crate) fn renderer_render(r: &SvgRenderer, code: &FastQrCode) -> (svg: String)
    requires
        is_symbol_side(qr_size(*code)),
        r@.margin * 2 + qr_size(*code) <= usize::MAX,
    ensures
        svg@ == svg_markup(r@, qr_size(*code), qr_modules(*code)),
{
    r.builder.to_str(code)
}

} // verus!
