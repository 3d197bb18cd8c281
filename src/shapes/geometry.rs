use vstd::prelude::*;

verus! {

/// `v` limited to the range of `i64`.
pub open spec fn clamp_i64(v: int) -> int {
    if v < i64::MIN {
        i64::MIN as int
    } else if v > i64::MAX {
        i64::MAX as int
    } else {
        v
    }
}

/// Adds two coordinates, saturating at the bounds of `i64`.
fn saturating_add_i64(a: i64, b: i64) -> (r: i64)
    ensures
        r == clamp_i64(a + b),
{
    let s: i128 = a as i128 + b as i128;
    if s < i64::MIN as i128 {
        i64::MIN
    } else if s > i64::MAX as i128 {
        i64::MAX
    } else {
        s as i64
    }
}

/// A point in page coordinates; also used for sizes and displacements.
#[derive(Clone, Copy, Debug, PartialEq, Eq, Structural)]
pub struct XYPoint {
    pub x: i64,
    pub y: i64,
}

impl XYPoint {
    pub fn new(x: i64, y: i64) -> (r: XYPoint)
        ensures
            r.x == x,
            r.y == y,
    {
        XYPoint { x, y }
    }

    /// The point moved by `delta`, each coordinate saturating at the bounds of `i64`.
    pub open spec fn offset_spec(self, delta: XYPoint) -> XYPoint {
        XYPoint { x: clamp_i64(self.x + delta.x) as i64, y: clamp_i64(self.y + delta.y) as i64 }
    }

    pub fn offset_by(&self, delta: &XYPoint) -> (r: XYPoint)
        ensures
            r == self.offset_spec(*delta),
    {
        XYPoint { x: saturating_add_i64(self.x, delta.x), y: saturating_add_i64(self.y, delta.y) }
    }

    /// The displacement from `other` to `self`.
    pub fn subtract(&self, other: &XYPoint) -> (r: XYPoint)
        requires
            i64::MIN <= self.x - other.x <= i64::MAX,
            i64::MIN <= self.y - other.y <= i64::MAX,
        ensures
            r.x == self.x - other.x,
            r.y == self.y - other.y,
    {
        XYPoint { x: self.x - other.x, y: self.y - other.y }
    }
}

/// The shape's outline: a circle or an axis-aligned rectangle.
#[derive(Clone, Copy, Debug, PartialEq, Eq, Structural)]
pub enum Geometry {
    Circle { center: XYPoint, radius: i64 },
    Rectangle { top_left: XYPoint, size: XYPoint },
}

impl Geometry {
    /// Translation by `delta`: the anchor point moves, the extent is kept.
    pub open spec fn offset_spec(self, delta: XYPoint) -> Geometry {
        match self {
            Geometry::Circle { center, radius } => Geometry::Circle {
                center: center.offset_spec(delta),
                radius,
            },
            Geometry::Rectangle { top_left, size } => Geometry::Rectangle {
                top_left: top_left.offset_spec(delta),
                size,
            },
        }
    }

    pub fn offset_by(&self, delta: &XYPoint) -> (r: Geometry)
        ensures
            r == self.offset_spec(*delta),
    {
        match self {
            Geometry::Circle { center, radius } => Geometry::Circle {
                center: center.offset_by(delta),
                radius: *radius,
            },
            Geometry::Rectangle { top_left, size } => Geometry::Rectangle {
                top_left: top_left.offset_by(delta),
                size: *size,
            },
        }
    }
}

/// Fill colors, in the order in which new shapes cycle through them.
#[derive(Clone, Copy, Debug, PartialEq, Eq, Structural)]
pub enum Color {
    Red,
    Orange,
    Yellow,
    Green,
    Blue,
    Indigo,
    Violet,
    White,
    Black,
}

impl Color {
    /// The successor in the cycle; the last color wraps to the first.
    pub open spec fn next(self) -> Color {
        match self {
            Color::Red => Color::Orange,
            Color::Orange => Color::Yellow,
            Color::Yellow => Color::Green,
            Color::Green => Color::Blue,
            Color::Blue => Color::Indigo,
            Color::Indigo => Color::Violet,
            Color::Violet => Color::White,
            Color::White => Color::Black,
            Color::Black => Color::Red,
        }
    }

    pub fn advance(&mut self)
        ensures
            *final(self) == old(self).next(),
    {
        *self = match *self {
            Color::Red => Color::Orange,
            Color::Orange => Color::Yellow,
            Color::Yellow => Color::Green,
            Color::Green => Color::Blue,
            Color::Blue => Color::Indigo,
            Color::Indigo => Color::Violet,
            Color::Violet => Color::White,
            Color::White => Color::Black,
            Color::Black => Color::Red,
        };
    }
}

#[derive(Clone, Copy, Debug, PartialEq, Eq, Structural)]
pub struct Style {
    pub fill: Color,
}

impl Style {
    pub fn new(fill: Color) -> (r: Style)
        ensures
            r.fill == fill,
    {
        Style { fill }
    }
}

#[derive(Clone, Copy, Debug, PartialEq, Eq, Structural)]
pub struct Shape {
    pub geometry: Geometry,
    pub style: Style,
}

} // verus!
