//! Exact evaluation of linear, quadratic and cubic Bezier curves with integer
//! control points at rational parameter values, lookup tables of evenly spaced
//! points, and the decisions of the bisection search that maps an arc-length
//! fraction to a parameter value.

mod bezier;
mod lookup;
mod point;
mod search;

pub use bezier::{Bezier, BezierHandles};
pub use lookup::{TValue, DEFAULT_LUT_STEP_SIZE};
pub use point::{Point, RationalPoint, Ratio, COORD_BOUND, MAX_DEN};
pub use search::{
    search_plan, start_euclidean_search, EuclideanSearch, Measure, SearchPlan, SearchStep,
    default_euclidean_error_bound, DEFAULT_LENGTH_SUBDIVISIONS, SEARCH_DEN,
};
