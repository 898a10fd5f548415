use vstd::prelude::*;

use crate::point::Ratio;

verus! {

/// The denominator of the parameter values that the arc-length search visits.
pub const SEARCH_DEN: u16 = 0x8000;

/// The most chords used to approximate the length of a curve.
pub const DEFAULT_LENGTH_SUBDIVISIONS: usize = 1000;

/// The default tolerance of the arc-length search: one thousandth.
pub fn default_euclidean_error_bound() -> (r: Ratio)
    ensures
        r == (Ratio { num: 1, den: 1000 }),
{
    Ratio { num: 1, den: 1000 }
}

/// How to measure the arc length while searching for an arc-length fraction.
#[derive(Clone, Copy, Debug, PartialEq, Eq, Structural)]
pub struct SearchPlan {
    /// Measure from the start of the curve; otherwise from its end.
    pub from_start: bool,
    /// The number of chords used for each measurement.
    pub subdivisions: usize,
}

/// How the arc-length fraction measured at the probed parameter compares with
/// the target fraction.
#[derive(Clone, Copy, Debug, PartialEq, Eq, Structural)]
pub enum Measure {
    /// Within the error of the target.
    Within,
    /// Smaller than the target by at least the error.
    Short,
    /// Larger than the target by at least the error.
    Long,
}

/// A bisection bracket over the parameters `k / SEARCH_DEN`; `mid` is the one
/// to measure next.
#[derive(Clone, Copy, Debug, PartialEq, Eq, Structural)]
pub struct EuclideanSearch {
    pub low: u16,
    pub mid: u16,
    pub high: u16,
}

/// What the search does next.
#[derive(Clone, Copy, Debug, PartialEq, Eq, Structural)]
pub enum SearchStep {
    /// The search is over with this parameter.
    Done(Ratio),
    /// Measure at the bracket's `mid` and hand the outcome to `step`.
    Measure(EuclideanSearch),
}

/// `|2n - d|`: twice the distance of `n / d` from one half, times `d`.
pub open spec fn twice_off_center(n: int, d: int) -> int {
    if 2 * n >= d {
        2 * n - d
    } else {
        d - 2 * n
    }
}

/// `|t - 1/2| * DEFAULT_LENGTH_SUBDIVISIONS` for `t = n / d`, rounded to the
/// nearest integer (halves up), and at least one.
pub open spec fn subdivisions_for(t: Ratio) -> int {
    let d = t.den as int;
    let rounded = (twice_off_center(t.num as int, d) * DEFAULT_LENGTH_SUBDIVISIONS + d) / (2 * d);
    if rounded < 1 {
        1
    } else {
        rounded
    }
}

/// `a < b` for two ratios.
pub open spec fn ratio_lt(a: Ratio, b: Ratio) -> bool {
    a.num * b.den < b.num * a.den
}

/// `1 - a < b` for two ratios.
pub open spec fn complement_lt(a: Ratio, b: Ratio) -> bool {
    (a.den - a.num) * b.den < b.num * a.den
}

/// The bracket that the search starts from: all of `[0, 1]`.
pub open spec fn initial_search() -> EuclideanSearch {
    EuclideanSearch { low: 0, mid: SEARCH_DEN / 2, high: SEARCH_DEN }
}

/// How the search for the arc-length fraction `t` measures: from the nearer
/// end, with more chords the nearer `t` lies to the middle of the curve.
pub fn search_plan(t: Ratio) -> (r: SearchPlan)
    requires
        t.wf(),
    ensures
        r.from_start == (2 * t.num < t.den),
        r.subdivisions == subdivisions_for(t),
{
    let n = t.num as u64;
    let d = t.den as u64;
    let off = if 2 * n >= d {
        2 * n - d
    } else {
        d - 2 * n
    };
    let rounded = (off * (DEFAULT_LENGTH_SUBDIVISIONS as u64) + d) / (2 * d);
    let subdivisions: usize = if rounded < 1 {
        1
    } else {
        proof {
            assert(rounded <= 1000) by (nonlinear_arith)
                requires
                    off <= d,
                    0 < d,
                    rounded == (off * 1000 + d) / (2 * d),
            ;
        }
        rounded as usize
    };
    SearchPlan { from_start: 2 * n < d, subdivisions }
}

/// The first step of the search for the parameter at arc-length fraction `t`,
/// within `error`: parameter 0 where `t < error`, parameter 1 where
/// `1 - t < error`, and otherwise a measurement at parameter one half.
pub fn start_euclidean_search(t: Ratio, error: Ratio) -> (r: SearchStep)
    requires
        t.wf(),
        error.wf(),
    ensures
        ratio_lt(t, error) ==> r == SearchStep::Done(Ratio { num: 0, den: 1 }),
        !ratio_lt(t, error) && complement_lt(t, error) ==> r == SearchStep::Done(
            Ratio { num: 1, den: 1 },
        ),
        !ratio_lt(t, error) && !complement_lt(t, error) ==> r == SearchStep::Measure(
            initial_search(),
        ),
{
    let (n, d) = (t.num as u32, t.den as u32);
    let (en, ed) = (error.num as u32, error.den as u32);
    proof {
        assert(n * ed <= 0xFFFF * 0xFFFF && (d - n) * ed <= 0xFFFF * 0xFFFF && en * d <= 0xFFFF
            * 0xFFFF) by (nonlinear_arith)
            requires
                n <= d <= 0xFFFF,
                en <= 0xFFFF,
                ed <= 0xFFFF,
        ;
    }
    if n * ed < en * d {
        SearchStep::Done(Ratio { num: 0, den: 1 })
    } else if (d - n) * ed < en * d {
        SearchStep::Done(Ratio { num: 1, den: 1 })
    } else {
        SearchStep::Measure(EuclideanSearch { low: 0, mid: SEARCH_DEN / 2, high: SEARCH_DEN })
    }
}

impl EuclideanSearch {
    /// The bracket is ordered, lies in `[0, SEARCH_DEN]` and `mid` halves it.
    pub open spec fn wf(self) -> bool {
        &&& self.low < self.mid < self.high <= SEARCH_DEN
        &&& self.mid == (self.low + self.high) / 2
    }

    /// The parameter `mid / SEARCH_DEN` that the bracket probes.
    pub open spec fn probe(self) -> Ratio {
        Ratio { num: self.mid, den: SEARCH_DEN }
    }

    /// The bracket after measuring `m` at `mid`: the half on the side of the target.
    pub open spec fn narrowed(self, m: Measure) -> (u16, u16) {
        match m {
            Measure::Short => (self.mid, self.high),
            _ => (self.low, self.mid),
        }
    }

    /// The parameter that the bracket probes.
    pub fn parameter(&self) -> (r: Ratio)
        requires
            self.wf(),
        ensures
            r == self.probe(),
            r.wf(),
    {
        Ratio { num: self.mid, den: SEARCH_DEN }
    }

    /// The next step after measuring `m` at `mid`. A measurement within the
    /// error ends the search at `mid`; otherwise the bracket keeps the half on
    /// the side of the target, and the search ends at `mid` once that half
    /// holds no parameter strictly inside.
    pub fn step(&self, m: Measure) -> (r: SearchStep)
        requires
            self.wf(),
        ensures
            m == Measure::Within ==> r == SearchStep::Done(self.probe()),
            m != Measure::Within && self.narrowed(m).1 - self.narrowed(m).0 < 2 ==> r
                == SearchStep::Done(self.probe()),
            m != Measure::Within && self.narrowed(m).1 - self.narrowed(m).0 >= 2 ==> r
                == SearchStep::Measure(
                EuclideanSearch {
                    low: self.narrowed(m).0,
                    mid: ((self.narrowed(m).0 + self.narrowed(m).1) / 2) as u16,
                    high: self.narrowed(m).1,
                },
            ),
            r matches SearchStep::Measure(s) ==> s.wf() && s.high - s.low < self.high - self.low,
            r matches SearchStep::Done(q) ==> q.wf(),
    {
        let (low, high) = match m {
            Measure::Within => {
                return SearchStep::Done(self.parameter());
            },
            Measure::Short => (self.mid, self.high),
            Measure::Long => (self.low, self.mid),
        };
        if high - low < 2 {
            SearchStep::Done(self.parameter())
        } else {
            SearchStep::Measure(EuclideanSearch { low, mid: low + (high - low) / 2, high })
        }
    }
}

} // verus!
