//! Bookkeeping for the regression driver.
//!
//! The driver scores each candidate equation against a measurement set
//! laid out as flat, row-major arrays: `M` measurements of `Ni` inputs and
//! `No` outputs each, with an optional per-output sigma buffer.  The
//! functions here carry the driver's discrete decisions: whether the
//! buffers form a well-shaped measurement set, which rows an index selects,
//! whether fitting is performed at all, and by how many degrees of freedom
//! the chi-squared sum is reduced.  The floating-point sums themselves are
//! computed by unverified callers against these contracts.

use vstd::prelude::*;

verus! {

/// Buffer lengths form a well-shaped measurement set for an equation with
/// `ni` inputs and `no` outputs per measurement: both data buffers split
/// into whole rows, the row counts agree, and the sigma buffer is absent
/// or covers every output.
pub open spec fn valid_measurements(
    n_inputs: int,
    n_outputs: int,
    n_sigmas: int,
    ni: int,
    no: int,
) -> bool {
    &&& ni > 0
    &&& no > 0
    &&& n_inputs % ni == 0
    &&& n_outputs % no == 0
    &&& n_inputs / ni == n_outputs / no
    &&& (n_sigmas == 0 || n_sigmas == n_outputs)
}

/// The number of measurements in a well-shaped measurement set.
pub open spec fn spec_measurement_count(n_inputs: int, ni: int) -> int {
    n_inputs / ni
}

/// Validate the layout of a measurement set and return the number of
/// measurements, or `None` exactly when the buffers are not well shaped
/// for an equation with `ni` inputs and `no` outputs per measurement.
pub fn measurement_count(
    n_inputs: usize,
    n_outputs: usize,
    n_sigmas: usize,
    ni: usize,
    no: usize,
) -> (r: Option<usize>)
    ensures
        match r {
            Some(m) => valid_measurements(
                n_inputs as int,
                n_outputs as int,
                n_sigmas as int,
                ni as int,
                no as int,
            ) && m == spec_measurement_count(n_inputs as int, ni as int),
            None => !valid_measurements(
                n_inputs as int,
                n_outputs as int,
                n_sigmas as int,
                ni as int,
                no as int,
            ),
        },
{
    if ni == 0 || no == 0 {
        return None;
    }
    if n_inputs % ni != 0 || n_outputs % no != 0 {
        return None;
    }
    let m = n_inputs / ni;
    if n_outputs / no != m {
        return None;
    }
    if n_sigmas != 0 && n_sigmas != n_outputs {
        return None;
    }
    Some(m)
}

/// Fitting is performed only for an equation with free constants and at
/// least as many measurements as constants; with fewer, the constants are
/// left at their defaults.
pub fn should_fit(nr_constants: usize, nr_measurements: usize) -> (b: bool)
    ensures
        b == (nr_constants > 0 && nr_measurements >= nr_constants),
{
    nr_constants > 0 && nr_measurements >= nr_constants
}

/// Degrees of freedom of a fit: the number of measurements less the number
/// of fitted constants, floored at one.
pub open spec fn spec_degrees_of_freedom(m: int, k: int) -> int {
    if m > k {
        m - k
    } else {
        1
    }
}

/// Degrees of freedom by which the chi-squared sum is reduced.
pub fn degrees_of_freedom(nr_measurements: usize, nr_constants: usize) -> (dof: usize)
    ensures
        dof == spec_degrees_of_freedom(nr_measurements as int, nr_constants as int),
        dof >= 1,
{
    if nr_measurements > nr_constants {
        nr_measurements - nr_constants
    } else {
        1
    }
}

/// Half-open index range of row `i` in a flat row-major buffer of
/// `width`-element rows; the range lies within every buffer that holds at
/// least `i + 1` whole rows.
pub fn row_bounds(i: usize, width: usize, len: usize) -> (r: (usize, usize))
    requires
        width > 0,
        len as int % (width as int) == 0,
        (i as int) < len as int / (width as int),
    ensures
        r.0 == i * width,
        r.1 == i * width + width,
        r.1 <= len,
{
    proof {
        assert((i + 1) * width <= len) by (nonlinear_arith)
            requires
                width > 0,
                len as int % (width as int) == 0,
                (i as int) < len as int / (width as int),
        ;
        assert((i + 1) * width == i * width + width) by (nonlinear_arith);
    }
    let start = i * width;
    (start, start + width)
}

} // verus!
