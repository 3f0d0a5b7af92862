//! The enumerated choices offered to callers.

use vstd::prelude::*;

verus! {

/// Error correction level: how much of a damaged symbol can be restored.
/// Higher levels trade data capacity for resilience.
#[derive(Clone, Copy, Debug, PartialEq, Eq, Structural)]
pub enum ECL {
    /// About 7 % recovery capacity (largest data capacity).
    L,
    /// About 15 % recovery capacity.
    M,
    /// About 25 % recovery capacity (the default).
    Q,
    /// About 30 % recovery capacity (smallest data capacity).
    H,
}

impl ECL {
    /// The qualified name of the level, as `ECL.<letter>`.
    pub fn repr(&self) -> (r: &'static str)
        ensures
            r@ == match *self {
                ECL::L => "ECL.L"@,
                ECL::M => "ECL.M"@,
                ECL::Q => "ECL.Q"@,
                ECL::H => "ECL.H"@,
            },
    {
        match self {
            ECL::L => "ECL.L",
            ECL::M => "ECL.M",
            ECL::Q => "ECL.Q",
            ECL::H => "ECL.H",
        }
    }
}


/// Data-encoding mode. Choosing the right mode maximises the amount of data
/// that fits in a given version; the encoder picks one when none is forced.
#[derive(Clone, Copy, Debug, PartialEq, Eq, Structural)]
pub enum Mode {
    /// Digits 0-9 only.
    Numeric,
    /// Uppercase letters, digits and `$%*+-./:` plus space.
    Alphanumeric,
    /// Any bytes.
    Byte,
}

impl Mode {
    /// The qualified name of the mode, as `Mode.<name>`.
    pub fn repr(&self) -> (r: &'static str)
        ensures
            r@ == match *self {
                Mode::Numeric => "Mode.Numeric"@,
                Mode::Alphanumeric => "Mode.Alphanumeric"@,
                Mode::Byte => "Mode.Byte"@,
            },
    {
        match self {
            Mode::Numeric => "Mode.Numeric",
            Mode::Alphanumeric => "Mode.Alphanumeric",
            Mode::Byte => "Mode.Byte",
        }
    }
}

/// Mask pattern applied to the data region of the symbol. The encoder picks
/// the best one when none is forced.
#[derive(Clone, Copy, Debug, PartialEq, Eq, Structural)]
pub enum Mask {
    Checkerboard,
    HorizontalLines,
    VerticalLines,
    DiagonalLines,
    LargeCheckerboard,
    Fields,
    Diamonds,
    Meadow,
}

impl Mask {
    /// The qualified name of the mask, as `Mask.<name>`.
    pub fn repr(&self) -> (r: &'static str)
        ensures
            r@ == match *self {
                Mask::Checkerboard => "Mask.Checkerboard"@,
                Mask::HorizontalLines => "Mask.HorizontalLines"@,
                Mask::VerticalLines => "Mask.VerticalLines"@,
                Mask::DiagonalLines => "Mask.DiagonalLines"@,
                Mask::LargeCheckerboard => "Mask.LargeCheckerboard"@,
                Mask::Fields => "Mask.Fields"@,
                Mask::Diamonds => "Mask.Diamonds"@,
                Mask::Meadow => "Mask.Meadow"@,
            },
    {
        match self {
            Mask::Checkerboard => "Mask.Checkerboard",
            Mask::HorizontalLines => "Mask.HorizontalLines",
            Mask::VerticalLines => "Mask.VerticalLines",
            Mask::DiagonalLines => "Mask.DiagonalLines",
            Mask::LargeCheckerboard => "Mask.LargeCheckerboard",
            Mask::Fields => "Mask.Fields",
            Mask::Diamonds => "Mask.Diamonds",
            Mask::Meadow => "Mask.Meadow",
        }
    }
}

/// Shape used to draw each dark module when rendering.
#[derive(Clone, Copy, Debug, PartialEq, Eq, Structural)]
pub enum Shape {
    Square,
    Circle,
    RoundedSquare,
    Vertical,
    Horizontal,
    Diamond,
}

impl Shape {
    /// The qualified name of the shape, as `Shape.<name>`.
    pub fn repr(&self) -> (r: &'static str)
        ensures
            r@ == match *self {
                Shape::Square => "Shape.Square"@,
                Shape::Circle => "Shape.Circle"@,
                Shape::RoundedSquare => "Shape.RoundedSquare"@,
                Shape::Vertical => "Shape.Vertical"@,
                Shape::Horizontal => "Shape.Horizontal"@,
                Shape::Diamond => "Shape.Diamond"@,
            },
    {
        match self {
            Shape::Square => "Shape.Square",
            Shape::Circle => "Shape.Circle",
            Shape::RoundedSquare => "Shape.RoundedSquare",
            Shape::Vertical => "Shape.Vertical",
            Shape::Horizontal => "Shape.Horizontal",
            Shape::Diamond => "Shape.Diamond",
        }
    }
}

/// Background shape drawn behind an embedded image.
#[derive(Clone, Copy, Debug, PartialEq, Eq, Structural)]
pub enum ImageBackgroundShape {
    Square,
    Circle,
    RoundedSquare,
}

impl ImageBackgroundShape {
    /// The qualified name of the shape, as `ImageBackgroundShape.<name>`.
    pub fn repr(&self) -> (r: &'static str)
        ensures
            r@ == match *self {
                ImageBackgroundShape::Square => "ImageBackgroundShape.Square"@,
                ImageBackgroundShape::Circle => "ImageBackgroundShape.Circle"@,
                ImageBackgroundShape::RoundedSquare => "ImageBackgroundShape.RoundedSquare"@,
            },
    {
        match self {
            ImageBackgroundShape::Square => "ImageBackgroundShape.Square",
            ImageBackgroundShape::Circle => "ImageBackgroundShape.Circle",
            ImageBackgroundShape::RoundedSquare => "ImageBackgroundShape.RoundedSquare",
        }
    }
}

} // verus!
