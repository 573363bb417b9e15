//! The parts of a shape that an edit or an animation can address.
use vstd::prelude::*;

verus! {

/// A part of a cubic Bézier curve that can be changed.
#[derive(Clone, Copy, Debug, PartialEq, Eq, Structural)]
pub enum CubicBezierChange {
    Point1,
    Point2,
    Point3,
    Point4,
    IfClose,
}

/// A part of a circle that can be changed.
#[derive(Clone, Copy, Debug, PartialEq, Eq, Structural)]
pub enum CircleChange {
    Radius,
}

/// A part of a circle that can be animated.
#[derive(Clone, Debug, PartialEq)]
pub enum CircleAnimate {
    Radius,
}

/// A part of a rectangle that can be changed.
#[derive(Clone, Copy, Debug, PartialEq, Eq, Structural)]
pub enum RectangleChange {
    BottomRightPoint,
    Rounding,
}

/// Where an image's path starts: in the style directory or in the chart's.
#[derive(Clone, Debug, PartialEq)]
pub enum Path {
    Styles,
    Chart,
}

/// The unit of a coordinate: percent of the view, font size, or pixels.
#[derive(Clone, Copy, Debug, PartialEq)]
pub enum Unit {
    Vc,
    Em,
    Px,
}

} // verus!
