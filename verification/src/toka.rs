//! Toka Tree (Loom) nodes: a tree of drawable nodes, each a fixed set of Spirix coordinates and
//! colours, carried inside `vt` wrapped data.

use vstd::prelude::*;
use crate::spirix::{CircleF4E4, ScalarF4E4};

verus! {

/// How a button is drawn.
#[derive(Clone, Copy, Debug, PartialEq, Eq)]
pub enum ButtonVariant {
    Filled,
    Outlined,
    Text,
}

/// One step of a path.
#[derive(Clone, Copy, Debug, PartialEq, Eq)]
pub enum PathCommand {
    MoveTo(CircleF4E4),
    LineTo(CircleF4E4),
    QuadraticTo { ctrl: CircleF4E4, end: CircleF4E4 },
    CubicTo { ctrl1: CircleF4E4, ctrl2: CircleF4E4, end: CircleF4E4 },
    Close,
}

/// A filled box.
#[derive(Clone, Debug, PartialEq)]
pub struct TokaBox {
    pub pos: CircleF4E4,
    pub size: CircleF4E4,
    pub colour: [ScalarF4E4; 4],
}

/// A container node and its children.
#[derive(Debug, PartialEq)]
pub struct TokaNodeContainer {
    pub pos: CircleF4E4,
    pub size: CircleF4E4,
    pub children: Vec<TokaNode>,
}

/// A circle.
#[derive(Clone, Debug, PartialEq)]
pub struct TokaCircle {
    pub pos: CircleF4E4,
    pub span: ScalarF4E4,
    pub colour: [ScalarF4E4; 4],
}

/// A line.
#[derive(Clone, Debug, PartialEq)]
pub struct TokaLine {
    pub start: CircleF4E4,
    pub end: CircleF4E4,
    pub width: ScalarF4E4,
    pub colour: [ScalarF4E4; 4],
}

/// A text run.
#[derive(Clone, Debug, PartialEq)]
pub struct TokaText {
    pub pos: CircleF4E4,
    pub size: CircleF4E4,
    pub content: String,
    pub colour: [ScalarF4E4; 4],
}

/// A button.
#[derive(Clone, Debug, PartialEq)]
pub struct TokaButton {
    pub pos: CircleF4E4,
    pub size: CircleF4E4,
    pub label: String,
    pub variant: ButtonVariant,
    pub colour: [ScalarF4E4; 4],
}

/// A stroked path.
#[derive(Clone, Debug, PartialEq)]
pub struct TokaPath {
    pub colour: [ScalarF4E4; 4],
    pub width: ScalarF4E4,
    pub commands: Vec<PathCommand>,
}

/// An image, by handle, with a tint.
#[derive(Clone, Debug, PartialEq)]
pub struct TokaImage {
    pub pos: CircleF4E4,
    pub size: CircleF4E4,
    pub handle: u64,
    pub tint: [ScalarF4E4; 4],
}

/// A drawing surface, by handle.
#[derive(Clone, Debug, PartialEq)]
pub struct TokaSurface {
    pub pos: CircleF4E4,
    pub size: CircleF4E4,
    pub handle: u64,
}

/// A Toka Tree node.
#[derive(Debug, PartialEq)]
pub enum TokaNode {
    Box(TokaBox),
    Node(TokaNodeContainer),
    Circle(TokaCircle),
    Line(TokaLine),
    Text(TokaText),
    Button(TokaButton),
    Path(TokaPath),
    Image(TokaImage),
    Surface(TokaSurface),
}

} // verus!
