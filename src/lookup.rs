use vstd::prelude::*;

use crate::bezier::{cubic_blend, linear_blend, quadratic_blend, Bezier, BezierHandles};
use crate::point::{RationalPoint, Ratio, COORD_BOUND, MAX_DEN};

verus! {

/// The number of steps of a lookup table when none is given.
pub const DEFAULT_LUT_STEP_SIZE: usize = 10;

/// How a parameter value is to be read.
#[derive(Clone, Copy, Debug, PartialEq, Eq, Structural)]
pub enum TValue {
    /// The value is the polynomial parameter itself.
    Parametric(Ratio),
}

impl TValue {
    /// The value carried is a parameter of `[0, 1]`.
    pub open spec fn wf(self) -> bool {
        match self {
            TValue::Parametric(t) => t.wf(),
        }
    }

    /// The polynomial parameter that the value stands for.
    pub open spec fn parametric(self) -> Ratio {
        match self {
            TValue::Parametric(t) => t,
        }
    }
}

/// The number of steps that a lookup table asked for with `steps` has.
pub open spec fn lut_steps(steps: Option<usize>) -> int {
    match steps {
        Some(n) => n as int,
        None => DEFAULT_LUT_STEP_SIZE as int,
    }
}

/// `w * c`, with its magnitude bounded by `w` times `COORD_BOUND`.
fn weigh(w: u64, c: i32) -> (r: i128)
    requires
        w <= 3 * MAX_DEN,
    ensures
        r == w * c,
        -(COORD_BOUND * w) <= r <= COORD_BOUND * w,
{
    proof {
        assert(-(COORD_BOUND * w) <= w * c <= COORD_BOUND * w) by (nonlinear_arith)
            requires
                -COORD_BOUND <= c <= COORD_BOUND,
                0 <= w,
        ;
        assert(COORD_BOUND * w <= COORD_BOUND * (3 * MAX_DEN));
    }
    (w as i128) * (c as i128)
}

/// The weights of a linear blend sum to a denominator within bounds.
proof fn lemma_linear_weights(m: int, n: int)
    requires
        0 <= m,
        0 <= n,
        m + n <= 0xFFFF,
    ensures
        m + n <= MAX_DEN,
{
}

/// The quadratic Bernstein weights are nonnegative, sum to `(m + n)^2`, and
/// each step of computing them fits in a `u64`.
proof fn lemma_quadratic_weights(m: int, n: int) by (nonlinear_arith)
    requires
        0 <= m,
        0 <= n,
        m + n <= 0xFFFF,
    ensures
        m * m + 2 * m * n + n * n == (m + n) * (m + n),
        0 <= m * m <= (m + n) * (m + n),
        0 <= 2 * m <= 2 * 0xFFFF,
        0 <= 2 * m * n <= (m + n) * (m + n),
        0 <= n * n <= (m + n) * (m + n),
        (m + n) * (m + n) <= 0xFFFF * 0xFFFF,
{
}

/// The cubic Bernstein weights are nonnegative, sum to `(m + n)^3`, and
/// each step of computing them fits in a `u64`.
proof fn lemma_cubic_weights(m: int, n: int)
    requires
        0 <= m,
        0 <= n,
        m + n <= 0xFFFF,
    ensures
        m * m * m + 3 * m * m * n + 3 * m * n * n + n * n * n == (m + n) * (m + n) * (m + n),
        0 <= m * m <= 0xFFFF * 0xFFFF,
        0 <= 3 * m * m <= 3 * 0xFFFF * 0xFFFF,
        0 <= 3 * m * n <= 3 * 0xFFFF * 0xFFFF,
        0 <= n * n <= 0xFFFF * 0xFFFF,
        0 <= m * m * m,
        0 <= 3 * m * m * n,
        0 <= 3 * m * n * n,
        0 <= n * n * n,
        (m + n) * (m + n) * (m + n) <= MAX_DEN,
{
    let s = m + n;
    assert(m * m * m + 3 * m * m * n + 3 * m * n * n + n * n * n == s * s * s) by (nonlinear_arith)
        requires
            s == m + n,
    ;
    assert(0 <= m * m <= 0xFFFF * 0xFFFF) by (nonlinear_arith)
        requires
            0 <= m <= 0xFFFF,
    ;
    assert(0 <= n * n <= 0xFFFF * 0xFFFF) by (nonlinear_arith)
        requires
            0 <= n <= 0xFFFF,
    ;
    assert(0 <= 3 * m * m <= 3 * 0xFFFF * 0xFFFF) by (nonlinear_arith)
        requires
            0 <= m <= 0xFFFF,
    ;
    assert(0 <= 3 * m * n <= 3 * 0xFFFF * 0xFFFF) by (nonlinear_arith)
        requires
            0 <= m <= 0xFFFF,
            0 <= n <= 0xFFFF,
    ;
    assert(0 <= 3 * m * m * n && 0 <= 3 * m * n * n && 0 <= m * m * m && 0 <= n * n * n)
        by (nonlinear_arith)
        requires
            0 <= m,
            0 <= n,
    ;
    assert(s * s * s <= 0xFFFF * 0xFFFF * 0xFFFF) by (nonlinear_arith)
        requires
            0 <= s <= 0xFFFF,
    ;
}

/// The linear blend of the coordinates `a` and `b`.
fn linear_value(m: u64, n: u64, a: i32, b: i32) -> (r: i128)
    requires
        m + n <= 0xFFFF,
    ensures
        r == linear_blend(m as int, n as int, a as int, b as int),
        -(COORD_BOUND * (m + n)) <= r <= COORD_BOUND * (m + n),
{
    weigh(m, a) + weigh(n, b)
}

/// The quadratic blend of the coordinates `a`, `h` and `b`.
fn quadratic_value(m: u64, n: u64, a: i32, h: i32, b: i32) -> (r: i128)
    requires
        m + n <= 0xFFFF,
    ensures
        r == quadratic_blend(m as int, n as int, a as int, h as int, b as int),
        -(COORD_BOUND * ((m + n) * (m + n))) <= r <= COORD_BOUND * ((m + n) * (m + n)),
{
    proof {
        lemma_quadratic_weights(m as int, n as int);
    }
    weigh(m * m, a) + weigh(2 * m * n, h) + weigh(n * n, b)
}

/// The cubic blend of the coordinates `a`, `h`, `k` and `b`.
fn cubic_value(m: u64, n: u64, a: i32, h: i32, k: i32, b: i32) -> (r: i128)
    requires
        m + n <= 0xFFFF,
    ensures
        r == cubic_blend(m as int, n as int, a as int, h as int, k as int, b as int),
        -(COORD_BOUND * ((m + n) * (m + n) * (m + n))) <= r <= COORD_BOUND * ((m + n) * (m + n) * (
        m + n)),
{
    proof {
        lemma_cubic_weights(m as int, n as int);
    }
    weigh(m * m * m, a) + weigh(3 * m * m * n, h) + weigh(3 * m * n * n, k) + weigh(n * n * n, b)
}

/// The curve's point at parameter 0 is `start` and its point at parameter 1
/// is `end`, exactly, whatever the denominator of the parameter.
pub proof fn lemma_evaluate_endpoints(b: Bezier, d: int)
    requires
        0 < d,
    ensures
        b.x_at(0, d) == b.start.x * b.scale(d),
        b.y_at(0, d) == b.start.y * b.scale(d),
        b.x_at(d, d) == b.end.x * b.scale(d),
        b.y_at(d, d) == b.end.y * b.scale(d),
{
    let (sx, sy, ex, ey) = (b.start.x as int, b.start.y as int, b.end.x as int, b.end.y as int);
    match b.handles {
        BezierHandles::Linear => {
            lemma_linear_blend_ends(d, sx, ex);
            lemma_linear_blend_ends(d, sy, ey);
        },
        BezierHandles::Quadratic { handle } => {
            lemma_quadratic_blend_ends(d, sx, handle.x as int, ex);
            lemma_quadratic_blend_ends(d, sy, handle.y as int, ey);
        },
        BezierHandles::Cubic { handle_start, handle_end } => {
            lemma_cubic_blend_ends(d, sx, handle_start.x as int, handle_end.x as int, ex);
            lemma_cubic_blend_ends(d, sy, handle_start.y as int, handle_end.y as int, ey);
        },
    }
}

/// A linear blend at either end is the endpoint there, scaled.
proof fn lemma_linear_blend_ends(d: int, a: int, b: int)
    ensures
        linear_blend(d - 0, 0, a, b) == a * d,
        linear_blend(d - d, d, a, b) == b * d,
{
    assert(d * a == a * d) by (nonlinear_arith);
    assert(d * b == b * d) by (nonlinear_arith);
}

/// A quadratic blend at either end is the endpoint there, scaled.
proof fn lemma_quadratic_blend_ends(d: int, a: int, h: int, b: int)
    ensures
        quadratic_blend(d - 0, 0, a, h, b) == a * (d * d),
        quadratic_blend(d - d, d, a, h, b) == b * (d * d),
{
    assert(quadratic_blend(d, 0, a, h, b) == a * (d * d)) by (nonlinear_arith);
    assert(quadratic_blend(0, d, a, h, b) == b * (d * d)) by (nonlinear_arith);
}

/// A cubic blend at either end is the endpoint there, scaled.
proof fn lemma_cubic_blend_ends(d: int, a: int, h: int, k: int, b: int)
    ensures
        cubic_blend(d - 0, 0, a, h, k, b) == a * (d * d * d),
        cubic_blend(d - d, d, a, h, k, b) == b * (d * d * d),
{
    assert(cubic_blend(d, 0, a, h, k, b) == a * (d * d * d)) by (nonlinear_arith);
    assert(cubic_blend(0, d, a, h, k, b) == b * (d * d * d)) by (nonlinear_arith);
}

impl Bezier {
    /// The point of the curve at parameter `t`, by the Bernstein polynomial of
    /// the curve's degree; its denominator is `t.den` raised to that degree.
    pub(crate) fn unrestricted_parametric_evaluate(&self, t: Ratio) -> (r: RationalPoint)
        requires
            t.wf(),
        ensures
            self.is_point_at(r, t.num as int, t.den as int),
            r.wf(),
    {
        let n = t.num as u64;
        let m = (t.den - t.num) as u64;
        let d = t.den as u64;
        match self.handles {
            BezierHandles::Linear => {
                proof {
                    lemma_linear_weights(m as int, n as int);
                }
                let x = linear_value(m, n, self.start.x, self.end.x);
                let y = linear_value(m, n, self.start.y, self.end.y);
                RationalPoint { x, y, den: d }
            },
            BezierHandles::Quadratic { handle } => {
                proof {
                    lemma_quadratic_weights(m as int, n as int);
                }
                let x = quadratic_value(m, n, self.start.x, handle.x, self.end.x);
                let y = quadratic_value(m, n, self.start.y, handle.y, self.end.y);
                assert((m + n) * (m + n) == d * d && 0 < d * d) by (nonlinear_arith)
                    requires
                        m + n == d,
                        0 < d,
                ;
                RationalPoint { x, y, den: d * d }
            },
            BezierHandles::Cubic { handle_start, handle_end } => {
                proof {
                    lemma_cubic_weights(m as int, n as int);
                    assert(d * d <= 0xFFFF * 0xFFFF && d * d * d <= MAX_DEN) by (nonlinear_arith)
                        requires
                            0 < d <= 0xFFFF,
                    ;
                }
                let x = cubic_value(m, n, self.start.x, handle_start.x, handle_end.x, self.end.x);
                let y = cubic_value(m, n, self.start.y, handle_start.y, handle_end.y, self.end.y);
                assert((m + n) * (m + n) * (m + n) == d * d * d && 0 < d * d * d) by (nonlinear_arith)
                    requires
                        m + n == d,
                        0 < d,
                ;
                RationalPoint { x, y, den: d * d * d }
            },
        }
    }

    /// The polynomial parameter that `t` stands for.
    pub(crate) fn t_value_to_parametric(&self, t: TValue) -> (r: Ratio)
        requires
            t.wf(),
        ensures
            r == t.parametric(),
            r.wf(),
    {
        match t {
            TValue::Parametric(t) => t,
        }
    }

    /// The point of the curve at `t`.
    pub fn evaluate(&self, t: TValue) -> (r: RationalPoint)
        requires
            t.wf(),
        ensures
            self.is_point_at(r, t.parametric().num as int, t.parametric().den as int),
            r.wf(),
            t.parametric().num == 0 ==> r.equals_point(self.start),
            t.parametric().num == t.parametric().den ==> r.equals_point(self.end),
    {
        let t = self.t_value_to_parametric(t);
        proof {
            lemma_evaluate_endpoints(*self, t.den as int);
        }
        self.unrestricted_parametric_evaluate(t)
    }

    /// The points of the curve at the `steps + 1` evenly spaced parameters
    /// `0 / steps, 1 / steps, ..., steps / steps`; `steps` is 10 when not given.
    pub fn compute_lookup_table(&self, steps: Option<usize>) -> (r: Vec<RationalPoint>)
        requires
            1 <= lut_steps(steps) <= 0xFFFF,
        ensures
            r@.len() == lut_steps(steps) + 1,
            forall|i: int|
                0 <= i < r@.len() ==> #[trigger] self.is_point_at(r@[i], i, lut_steps(steps))
                    && r@[i].wf(),
            r@[0].equals_point(self.start),
            r@[lut_steps(steps)].equals_point(self.end),
    {
        let steps: usize = match steps {
            Some(n) => n,
            None => DEFAULT_LUT_STEP_SIZE,
        };
        let mut table: Vec<RationalPoint> = Vec::new();
        let mut i: usize = 0;
        while i <= steps
            invariant
                1 <= steps <= 0xFFFF,
                i <= steps + 1,
                table@.len() == i,
                forall|j: int|
                    0 <= j < i ==> #[trigger] self.is_point_at(table@[j], j, steps as int)
                        && table@[j].wf(),
            decreases steps + 1 - i,
        {
            let t = Ratio { num: i as u16, den: steps as u16 };
            table.push(self.evaluate(TValue::Parametric(t)));
            i = i + 1;
        }
        proof {
            lemma_evaluate_endpoints(*self, steps as int);
            assert(self.is_point_at(table@[0], 0, steps as int));
            assert(self.is_point_at(table@[steps as int], steps as int, steps as int));
        }
        table
    }
}

} // verus!
