use vstd::prelude::*;

verus! {

/// The largest magnitude of a coordinate of an integer point.
pub const COORD_BOUND: i128 = 0x8000_0000;

/// The largest denominator of a rational point.
pub const MAX_DEN: u64 = 0xFFFF_FFFF_FFFF;

/// A point of the plane with integer coordinates: an endpoint or a handle of a curve.
#[derive(Clone, Copy, Debug, PartialEq, Eq, Structural)]
pub struct Point {
    pub x: i32,
    pub y: i32,
}

/// A parameter value `num / den`.
///
/// A curve is defined on the unit interval, so a usable ratio has a positive
/// denominator that is not smaller than its numerator.
#[derive(Clone, Copy, Debug, PartialEq, Eq, Structural)]
pub struct Ratio {
    pub num: u16,
    pub den: u16,
}

impl Ratio {
    /// The ratio lies in `[0, 1]` and has a nonzero denominator.
    pub open spec fn wf(self) -> bool {
        0 < self.den && self.num <= self.den
    }

    /// The ratio `num / den`; `None` where it is not a value of `[0, 1]`.
    pub fn new(num: u16, den: u16) -> (r: Option<Ratio>)
        ensures
            r is Some <==> (0 < den && num <= den),
            r matches Some(q) ==> q == (Ratio { num, den }),
    {
        if 0 < den && num <= den {
            Some(Ratio { num, den })
        } else {
            None
        }
    }
}

/// A point with rational coordinates `(x / den, y / den)`.
#[derive(Clone, Copy, Debug, PartialEq, Eq, Structural)]
pub struct RationalPoint {
    pub x: i128,
    pub y: i128,
    pub den: u64,
}

impl RationalPoint {
    /// The denominator is positive and bounded, and each coordinate has a
    /// magnitude of at most `COORD_BOUND`.
    pub open spec fn wf(self) -> bool {
        &&& 0 < self.den <= MAX_DEN
        &&& -(COORD_BOUND * self.den) <= self.x <= COORD_BOUND * self.den
        &&& -(COORD_BOUND * self.den) <= self.y <= COORD_BOUND * self.den
    }

    /// The two points are the same point of the plane, whatever their denominators.
    pub open spec fn same_as(self, o: RationalPoint) -> bool {
        &&& self.x * o.den == o.x * self.den
        &&& self.y * o.den == o.y * self.den
    }

    /// The point is the integer point `q`.
    pub open spec fn equals_point(self, q: Point) -> bool {
        &&& self.x == q.x * self.den
        &&& self.y == q.y * self.den
    }

    /// The integer point `p`.
    pub fn from_point(p: Point) -> (r: RationalPoint)
        ensures
            r == (RationalPoint { x: p.x as i128, y: p.y as i128, den: 1 }),
            r.wf(),
    {
        RationalPoint { x: p.x as i128, y: p.y as i128, den: 1 }
    }

    /// The point `(x / den, y / den)`; `None` where it breaks `wf`.
    pub fn new(x: i128, y: i128, den: u64) -> (r: Option<RationalPoint>)
        ensures
            r is Some <==> (RationalPoint { x, y, den }).wf(),
            r matches Some(p) ==> p == (RationalPoint { x, y, den }),
    {
        if 0 < den && den <= MAX_DEN {
            let bound = COORD_BOUND * (den as i128);
            if -bound <= x && x <= bound && -bound <= y && y <= bound {
                return Some(RationalPoint { x, y, den });
            }
        }
        None
    }

    /// Whether the two points are the same point of the plane.
    pub fn same_value(&self, o: &RationalPoint) -> (r: bool)
        requires
            self.wf(),
            o.wf(),
        ensures
            r == self.same_as(*o),
    {
        proof {
            lemma_cross_product_fits(self.x as int, self.den as int, o.den as int);
            lemma_cross_product_fits(o.x as int, o.den as int, self.den as int);
            lemma_cross_product_fits(self.y as int, self.den as int, o.den as int);
            lemma_cross_product_fits(o.y as int, o.den as int, self.den as int);
        }
        self.x * (o.den as i128) == o.x * (self.den as i128)
            && self.y * (o.den as i128) == o.y * (self.den as i128)
    }
}

/// A coordinate of a well-formed point, scaled by another well-formed
/// denominator, fits in an `i128`.
proof fn lemma_cross_product_fits(x: int, d: int, e: int)
    requires
        0 < d <= MAX_DEN,
        0 < e <= MAX_DEN,
        -(COORD_BOUND * d) <= x <= COORD_BOUND * d,
    ensures
        i128::MIN <= x * e <= i128::MAX,
{
    let m = d * e;
    assert(-(COORD_BOUND * m) <= x * e <= COORD_BOUND * m) by (nonlinear_arith)
        requires
            0 < e,
            m == d * e,
            -(COORD_BOUND * d) <= x <= COORD_BOUND * d,
    ;
    assert(m <= MAX_DEN * MAX_DEN) by (nonlinear_arith)
        requires
            0 < d <= MAX_DEN,
            0 < e <= MAX_DEN,
            m == d * e,
    ;
    assert(COORD_BOUND * m <= COORD_BOUND * (MAX_DEN * MAX_DEN));
    assert(COORD_BOUND * (MAX_DEN * MAX_DEN) < i128::MAX);
}

} // verus!
