//! SVG output: the style of the rendering and the rendering itself.

use vstd::prelude::*;

use crate::color::Color;
use crate::options::{ImageBackgroundShape, Shape};
use crate::svg_render::{
    default_style, renderer_add_colored_shape, renderer_add_shape, renderer_background_color,
    renderer_image, renderer_image_background_color, renderer_image_background_shape,
    renderer_margin, renderer_module_color, renderer_new, renderer_render, svg_markup, SvgStyle,
};
use crate::symbol::QRCode;

verus! {

/// A layer of shapes drawn for each dark module, in its own color or (`None`)
/// in the module color.
#[derive(Clone, Debug)]
pub struct ShapeLayer {
    pub shape: Shape,
    pub color: Option<Color>,
}

/// The view of a layer: its shape and the string of its color.
pub open spec fn layer_view(layer: ShapeLayer) -> (Shape, Option<Seq<char>>) {
    (
        layer.shape,
        match layer.color {
            Some(c) => Some(c@),
            None => None,
        },
    )
}

/// The view of a list of layers.
pub open spec fn layers_view(layers: Seq<ShapeLayer>) -> Seq<(Shape, Option<Seq<char>>)> {
    layers.map_values(|l: ShapeLayer| layer_view(l))
}

/// The view of an optional image.
pub open spec fn image_view(image: Option<String>) -> Option<Seq<char>> {
    match image {
        Some(s) => Some(s@),
        None => None,
    }
}

/// Builder for SVG output: the style of the rendering. (The size, gap and
/// position of an embedded image are left to `fast_qr`.)
#[derive(Clone, Debug)]
pub struct SvgBuilder {
    /// Quiet-zone margin in modules (default 4).
    pub margin: usize,
    /// Color of the dark modules (default black).
    pub module_color: Color,
    /// Background color (default white).
    pub background_color: Color,
    /// Shape layers drawn for each dark module, in order (default none,
    /// which draws squares).
    pub layers: Vec<ShapeLayer>,
    /// Embedded image: a filesystem path or a base64 data URI.
    pub image: Option<String>,
    /// Color behind the embedded image (default white).
    pub image_background_color: Color,
    /// Shape behind the embedded image (default square).
    pub image_background_shape: ImageBackgroundShape,
}

impl View for SvgBuilder {
    type V = SvgStyle;

    open spec fn view(&self) -> SvgStyle {
        SvgStyle {
            margin: self.margin as nat,
            module_color: self.module_color@,
            background_color: self.background_color@,
            layers: layers_view(self.layers@),
            image: image_view(self.image),
            image_background_color: self.image_background_color@,
            image_background_shape: self.image_background_shape,
        }
    }
}

impl SvgBuilder {
    /// A builder with the default style: margin 4, black modules on white,
    /// no shape layer, no image, a white square behind an image.
    pub fn new() -> (b: SvgBuilder)
        ensures
            b@ == default_style(),
    {
        let b = SvgBuilder {
            margin: 4,
            module_color: Color::from_text(String::from_str("#000000")),
            background_color: Color::from_text(String::from_str("#ffffff")),
            layers: Vec::new(),
            image: None,
            image_background_color: Color::from_text(String::from_str("#ffffff")),
            image_background_shape: ImageBackgroundShape::Square,
        };
        assert(layers_view(b.layers@) =~= Seq::empty());
        b
    }

    /// Sets the quiet-zone margin, in modules.
    pub fn margin(&mut self, margin: usize)
        ensures
            final(self)@ == (SvgStyle { margin: margin as nat, ..old(self)@ }),
    {
        self.margin = margin;
    }

    /// Sets the color of the dark modules.
    pub fn module_color(&mut self, color: Color)
        ensures
            final(self)@ == (SvgStyle { module_color: color@, ..old(self)@ }),
    {
        self.module_color = color;
    }

    /// Sets the background color.
    pub fn background_color(&mut self, color: Color)
        ensures
            final(self)@ == (SvgStyle { background_color: color@, ..old(self)@ }),
    {
        self.background_color = color;
    }

    /// Adds a layer of `shape`, drawn in the module color.
    pub fn shape(&mut self, shape: Shape)
        ensures
            final(self)@ == (SvgStyle { layers: old(self)@.layers.push((shape, None)), ..old(self)@ }),
    {
        self.layers.push(ShapeLayer { shape, color: None });
        assert(layers_view(self.layers@) =~= layers_view(old(self).layers@).push((shape, None)));
    }

    /// Adds a layer of `shape` drawn in `color` (useful for mixed shapes).
    pub fn shape_color(&mut self, shape: Shape, color: Color)
        ensures
            final(self)@ == (SvgStyle {
                layers: old(self)@.layers.push((shape, Some(color@))),
                ..old(self)@
            }),
    {
        let ghost c = color@;
        self.layers.push(ShapeLayer { shape, color: Some(color) });
        assert(layers_view(self.layers@) =~= layers_view(old(self).layers@).push((shape, Some(c))));
    }

    /// Embeds an image: a filesystem path or a base64 data URI.
    pub fn image(&mut self, image: String)
        ensures
            final(self)@ == (SvgStyle { image: Some(image@), ..old(self)@ }),
    {
        self.image = Some(image);
    }

    /// Sets the color shown behind the embedded image.
    pub fn image_background_color(&mut self, color: Color)
        ensures
            final(self)@ == (SvgStyle { image_background_color: color@, ..old(self)@ }),
    {
        self.image_background_color = color;
    }

    /// Sets the shape drawn behind the embedded image.
    pub fn image_background_shape(&mut self, shape: ImageBackgroundShape)
        ensures
            final(self)@ == (SvgStyle { image_background_shape: shape, ..old(self)@ }),
    {
        self.image_background_shape = shape;
    }

    /// Renders `qr` to an SVG document in this style. The margin counts
    /// twice in the document's width, which must fit in a `usize`.
    pub fn to_str(&self, qr: &QRCode) -> (svg: String)
        requires
            self.margin * 2 + qr.side() <= usize::MAX,
        ensures
            svg@ == svg_markup(self@, qr.side(), qr.modules()),
    {
        let mut r = renderer_new();
        renderer_margin(&mut r, self.margin);
        renderer_module_color(&mut r, self.module_color.as_str());
        renderer_background_color(&mut r, self.background_color.as_str());
        let mut i: usize = 0;
        assert(layers_view(self.layers@.take(0)) =~= Seq::empty());
        while i < self.layers.len()
            invariant
                i <= self.layers.len(),
                r@ == (SvgStyle {
                    margin: self.margin as nat,
                    module_color: self.module_color@,
                    background_color: self.background_color@,
                    layers: layers_view(self.layers@.take(i as int)),
                    ..default_style()
                }),
            decreases self.layers.len() - i,
        {
            let layer = &self.layers[i];
            match &layer.color {
                Some(c) => renderer_add_colored_shape(&mut r, layer.shape, c.as_str()),
                None => renderer_add_shape(&mut r, layer.shape),
            }
            assert(layers_view(self.layers@.take(i + 1)) =~= layers_view(self.layers@.take(i as int)).push(
                layer_view(self.layers@[i as int]),
            ));
            i = i + 1;
        }
        assert(self.layers@.take(self.layers.len() as int) =~= self.layers@);
        match &self.image {
            Some(image) => renderer_image(&mut r, image.as_str()),
            None => {},
        }
        renderer_image_background_color(&mut r, self.image_background_color.as_str());
        renderer_image_background_shape(&mut r, self.image_background_shape);
        assert(r@ == self@);
        renderer_render(&r, qr.as_fast_qr())
    }
}

} // verus!
