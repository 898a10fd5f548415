use vstd::prelude::*;

use crate::point::{Point, RationalPoint};

verus! {

/// The control points between the two endpoints; their number fixes the degree.
#[derive(Clone, Copy, Debug, PartialEq, Eq, Structural)]
pub enum BezierHandles {
    Linear,
    Quadratic { handle: Point },
    Cubic { handle_start: Point, handle_end: Point },
}

/// A Bezier curve of degree one, two or three.
#[derive(Clone, Copy, Debug, PartialEq, Eq, Structural)]
pub struct Bezier {
    pub start: Point,
    pub end: Point,
    pub handles: BezierHandles,
}

/// `m * a + n * b`: a linear blend with weights `m` and `n`.
pub open spec fn linear_blend(m: int, n: int, a: int, b: int) -> int {
    m * a + n * b
}

/// The quadratic Bernstein blend of `a`, `h`, `b` with the weights `m` and `n`
/// standing for `1 - t` and `t`.
pub open spec fn quadratic_blend(m: int, n: int, a: int, h: int, b: int) -> int {
    m * m * a + 2 * m * n * h + n * n * b
}

/// The cubic Bernstein blend of `a`, `h`, `k`, `b` with the weights `m` and `n`
/// standing for `1 - t` and `t`.
pub open spec fn cubic_blend(m: int, n: int, a: int, h: int, k: int, b: int) -> int {
    m * m * m * a + 3 * m * m * n * h + 3 * m * n * n * k + n * n * n * b
}

impl Bezier {
    /// The polynomial degree of the curve.
    pub open spec fn spec_degree(self) -> nat {
        match self.handles {
            BezierHandles::Linear => 1,
            BezierHandles::Quadratic { .. } => 2,
            BezierHandles::Cubic { .. } => 3,
        }
    }

    /// `d` raised to the degree of the curve: the denominator of the curve's
    /// point at a parameter with denominator `d`.
    pub open spec fn scale(self, d: int) -> int {
        match self.handles {
            BezierHandles::Linear => d,
            BezierHandles::Quadratic { .. } => d * d,
            BezierHandles::Cubic { .. } => d * d * d,
        }
    }

    /// The x coordinate of the point at parameter `n / d`, times `scale(d)`.
    pub open spec fn x_at(self, n: int, d: int) -> int {
        match self.handles {
            BezierHandles::Linear => linear_blend(d - n, n, self.start.x as int, self.end.x as int),
            BezierHandles::Quadratic { handle } => quadratic_blend(
                d - n,
                n,
                self.start.x as int,
                handle.x as int,
                self.end.x as int,
            ),
            BezierHandles::Cubic { handle_start, handle_end } => cubic_blend(
                d - n,
                n,
                self.start.x as int,
                handle_start.x as int,
                handle_end.x as int,
                self.end.x as int,
            ),
        }
    }

    /// The y coordinate of the point at parameter `n / d`, times `scale(d)`.
    pub open spec fn y_at(self, n: int, d: int) -> int {
        match self.handles {
            BezierHandles::Linear => linear_blend(d - n, n, self.start.y as int, self.end.y as int),
            BezierHandles::Quadratic { handle } => quadratic_blend(
                d - n,
                n,
                self.start.y as int,
                handle.y as int,
                self.end.y as int,
            ),
            BezierHandles::Cubic { handle_start, handle_end } => cubic_blend(
                d - n,
                n,
                self.start.y as int,
                handle_start.y as int,
                handle_end.y as int,
                self.end.y as int,
            ),
        }
    }

    /// `p` is the curve's point at parameter `n / d`, held over the denominator `scale(d)`.
    pub open spec fn is_point_at(self, p: RationalPoint, n: int, d: int) -> bool {
        &&& p.x == self.x_at(n, d)
        &&& p.y == self.y_at(n, d)
        &&& p.den == self.scale(d)
    }

    /// The line from `start` to `end`.
    pub fn from_linear_points(start: Point, end: Point) -> (r: Bezier)
        ensures
            r == (Bezier { start, end, handles: BezierHandles::Linear }),
    {
        Bezier { start, end, handles: BezierHandles::Linear }
    }

    /// The quadratic curve from `start` to `end` with the control point `handle`.
    pub fn from_quadratic_points(start: Point, handle: Point, end: Point) -> (r: Bezier)
        ensures
            r == (Bezier { start, end, handles: BezierHandles::Quadratic { handle } }),
    {
        Bezier { start, end, handles: BezierHandles::Quadratic { handle } }
    }

    /// The cubic curve from `start` to `end` with the control points
    /// `handle_start` and `handle_end`.
    pub fn from_cubic_points(start: Point, handle_start: Point, handle_end: Point, end: Point) -> (r:
        Bezier)
        ensures
            r == (Bezier { start, end, handles: BezierHandles::Cubic { handle_start, handle_end } }),
    {
        Bezier { start, end, handles: BezierHandles::Cubic { handle_start, handle_end } }
    }

    /// The line from `(x1, y1)` to `(x2, y2)`.
    pub fn from_linear_coordinates(x1: i32, y1: i32, x2: i32, y2: i32) -> (r: Bezier)
        ensures
            r == (Bezier {
                start: Point { x: x1, y: y1 },
                end: Point { x: x2, y: y2 },
                handles: BezierHandles::Linear,
            }),
    {
        Bezier::from_linear_points(Point { x: x1, y: y1 }, Point { x: x2, y: y2 })
    }

    /// The quadratic curve from `(x1, y1)` to `(x3, y3)` with the control point `(x2, y2)`.
    pub fn from_quadratic_coordinates(x1: i32, y1: i32, x2: i32, y2: i32, x3: i32, y3: i32) -> (r:
        Bezier)
        ensures
            r == (Bezier {
                start: Point { x: x1, y: y1 },
                end: Point { x: x3, y: y3 },
                handles: BezierHandles::Quadratic { handle: Point { x: x2, y: y2 } },
            }),
    {
        Bezier::from_quadratic_points(
            Point { x: x1, y: y1 },
            Point { x: x2, y: y2 },
            Point { x: x3, y: y3 },
        )
    }

    /// The cubic curve from `(x1, y1)` to `(x4, y4)` with the control points
    /// `(x2, y2)` and `(x3, y3)`.
    pub fn from_cubic_coordinates(
        x1: i32,
        y1: i32,
        x2: i32,
        y2: i32,
        x3: i32,
        y3: i32,
        x4: i32,
        y4: i32,
    ) -> (r: Bezier)
        ensures
            r == (Bezier {
                start: Point { x: x1, y: y1 },
                end: Point { x: x4, y: y4 },
                handles: BezierHandles::Cubic {
                    handle_start: Point { x: x2, y: y2 },
                    handle_end: Point { x: x3, y: y3 },
                },
            }),
    {
        Bezier::from_cubic_points(
            Point { x: x1, y: y1 },
            Point { x: x2, y: y2 },
            Point { x: x3, y: y3 },
            Point { x: x4, y: y4 },
        )
    }

    /// The first endpoint of the curve.
    pub fn start(&self) -> (r: Point)
        ensures
            r == self.start,
    {
        self.start
    }

    /// The last endpoint of the curve.
    pub fn end(&self) -> (r: Point)
        ensures
            r == self.end,
    {
        self.end
    }

    /// The polynomial degree of the curve: 1, 2 or 3.
    pub fn degree(&self) -> (r: usize)
        ensures
            r == self.spec_degree(),
    {
        match self.handles {
            BezierHandles::Linear => 1,
            BezierHandles::Quadratic { .. } => 2,
            BezierHandles::Cubic { .. } => 3,
        }
    }
}

} // verus!
