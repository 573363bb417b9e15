//! The kinds of notes and the edits that the chart editor can make.
use vstd::prelude::*;
use crate::shape::{CircleChange, CubicBezierChange, RectangleChange};

verus! {

/// How a note is hit.
#[derive(Clone, Copy, Debug, PartialEq, Eq, Structural)]
pub enum JudgeType {
    /// Pressed and released on time.
    Tap,
    /// Held over while it passes.
    Slide,
}

/// The layout of the chart editor.
#[derive(Clone, Debug, PartialEq)]
pub enum EditPages {
    Timeline,
    View,
    TimelineAndView,
}

/// The label of an editor window.
#[derive(Clone, Debug, Eq, Hash, PartialEq)]
pub enum RenderLabel {
    Text(String),
    Array(usize, usize),
}

/// What an editor window shows: a note (judge field, index) or a shape.
#[derive(Clone, Debug, Eq, Hash, PartialEq)]
pub enum RenderType {
    Note(usize, usize),
    Shape(String),
}

/// An item of a chart that the editor can select: a note (its judge field's
/// id and its place in that field's list), a shape (its label number) or a
/// judge field (its id).
#[derive(Clone, Copy, Debug, PartialEq, Eq, Structural)]
pub enum PossibleChartSelection {
    Note(usize, usize),
    Shape(usize),
    JudgeField(usize),
}

/// A change to a note.
#[derive(Clone, Copy, Debug, PartialEq, Eq, Structural)]
pub enum NoteChange {
    JudgeFieldId,
    Shape(PossibleShapoChange),
    ClickTime,
    StartTime,
    StartPosition,
    FinalPosition,
    Delete,
    Add(JudgeType),
}

/// A change to a chart.
#[derive(Clone, Copy, Debug, PartialEq, Eq, Structural)]
pub enum PossibleChartChange {
    Songtitle,
    Mapname,
    Bpm,
    Producer,
    Charter,
    Note(NoteChange),
    JudgeField,
    Shape(PossibleShapoChange),
    Length,
    Painter,
    Offect,
}

/// A shape that can be added.
#[derive(Clone, Copy, Debug, PartialEq, Eq, Structural)]
pub enum ShapeAdd {
    Circle,
    Rectangle,
    CubicBezier,
}

/// A change to the geometry of a shape.
#[derive(Clone, Copy, Debug, PartialEq, Eq, Structural)]
pub enum ShapeChange {
    Circle(CircleChange),
    Rectangle(RectangleChange),
    CubicBezier(CubicBezierChange),
}

/// A change to a drawn shape.
#[derive(Clone, Copy, Debug, PartialEq, Eq, Structural)]
pub enum PossibleShapoChange {
    Add(ShapeAdd),
    Delete,
    Shape(ShapeChange),
    Animation,
    Style(PossibleStyleChange),
    SustainTime,
}

/// A change to the style of a shape.
#[derive(Clone, Copy, Debug, PartialEq, Eq, Structural)]
pub enum PossibleStyleChange {
    Position,
    IfAbsolute,
    Size,
    Rotate,
    RotateCenter,
    Fill,
    StrokeColor,
    StrokeWidth,
    Layer,
}

} // verus!
