//! Raster (PNG) output settings: the SVG style plus bounds on the pixel size.

use vstd::prelude::*;

use crate::color::Color;
use crate::options::{ImageBackgroundShape, Shape};
use crate::svg::SvgBuilder;
use crate::svg_render::{default_style, SvgStyle};

verus! {

/// The settings of a raster rendering.
pub struct ImageSettings {
    /// Largest width in pixels, if bounded.
    pub fit_width: Option<u32>,
    /// Largest height in pixels, if bounded.
    pub fit_height: Option<u32>,
    /// The style of the SVG that is rasterised.
    pub style: SvgStyle,
}

/// Builder for PNG raster output: an SVG style and optional bounds on the
/// width and height of the image.
#[derive(Clone, Debug)]
pub struct ImageBuilder {
    /// Largest width in pixels, if bounded.
    pub fit_width: Option<u32>,
    /// Largest height in pixels, if bounded.
    pub fit_height: Option<u32>,
    /// The style of the symbol drawn.
    pub svg: SvgBuilder,
}

impl View for ImageBuilder {
    type V = ImageSettings;

    open spec fn view(&self) -> ImageSettings {
        ImageSettings { fit_width: self.fit_width, fit_height: self.fit_height, style: self.svg@ }
    }
}

impl ImageBuilder {
    /// A builder with no size bound and the default style.
    pub fn new() -> (b: ImageBuilder)
        ensures
            b@ == (ImageSettings { fit_width: None, fit_height: None, style: default_style() }),
    {
        ImageBuilder { fit_width: None, fit_height: None, svg: SvgBuilder::new() }
    }

    /// Bounds the rendered image to at most `width` pixels wide.
    pub fn fit_width(&mut self, width: u32)
        ensures
            final(self)@ == (ImageSettings { fit_width: Some(width), ..old(self)@ }),
    {
        self.fit_width = Some(width);
    }

    /// Bounds the rendered image to at most `height` pixels tall.
    pub fn fit_height(&mut self, height: u32)
        ensures
            final(self)@ == (ImageSettings { fit_height: Some(height), ..old(self)@ }),
    {
        self.fit_height = Some(height);
    }

    /// Sets the quiet-zone margin, in modules.
    pub fn margin(&mut self, margin: usize)
        ensures
            final(self)@ == (ImageSettings {
                style: SvgStyle { margin: margin as nat, ..old(self)@.style },
                ..old(self)@
            }),
    {
        self.svg.margin(margin);
    }

    /// Sets the color of the dark modules.
    pub fn module_color(&mut self, color: Color)
        ensures
            final(self)@ == (ImageSettings {
                style: SvgStyle { module_color: color@, ..old(self)@.style },
                ..old(self)@
            }),
    {
        self.svg.module_color(color);
    }

    /// Sets the background color.
    pub fn background_color(&mut self, color: Color)
        ensures
            final(self)@ == (ImageSettings {
                style: SvgStyle { background_color: color@, ..old(self)@.style },
                ..old(self)@
            }),
    {
        self.svg.background_color(color);
    }

    /// Adds a layer of `shape`, drawn in the module color.
    pub fn shape(&mut self, shape: Shape)
        ensures
            final(self)@ == (ImageSettings {
                style: SvgStyle { layers: old(self)@.style.layers.push((shape, None)), ..old(self)@.style },
                ..old(self)@
            }),
    {
        self.svg.shape(shape);
    }

    /// Adds a layer of `shape` drawn in `color`.
    pub fn shape_color(&mut self, shape: Shape, color: Color)
        ensures
            final(self)@ == (ImageSettings {
                style: SvgStyle {
                    layers: old(self)@.style.layers.push((shape, Some(color@))),
                    ..old(self)@.style
                },
                ..old(self)@
            }),
    {
        self.svg.shape_color(shape, color);
    }

    /// Embeds an image: a filesystem path or a base64 data URI.
    pub fn image(&mut self, image: String)
        ensures
            final(self)@ == (ImageSettings {
                style: SvgStyle { image: Some(image@), ..old(self)@.style },
                ..old(self)@
            }),
    {
        self.svg.image(image);
    }

    /// Sets the color shown behind the embedded image.
    pub fn image_background_color(&mut self, color: Color)
        ensures
            final(self)@ == (ImageSettings {
                style: SvgStyle { image_background_color: color@, ..old(self)@.style },
                ..old(self)@
            }),
    {
        self.svg.image_background_color(color);
    }

    /// Sets the shape drawn behind the embedded image.
    pub fn image_background_shape(&mut self, shape: ImageBackgroundShape)
        ensures
            final(self)@ == (ImageSettings {
                style: SvgStyle { image_background_shape: shape, ..old(self)@.style },
                ..old(self)@
            }),
    {
        self.svg.image_background_shape(shape);
    }
}

} // verus!
