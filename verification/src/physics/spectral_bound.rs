use vstd::prelude::*;
use crate::physics::momentum_grid::signed_mode;
use crate::physics::spectral_derivative::nyquist_mode;

verus! {

/// Largest `|mode|` that the spectral derivative uses on an `n`-point grid.
pub open spec fn maximum_active_mode(n: int) -> int {
    if n % 2 == 0 {
        n / 2 - 1
    } else {
        (n - 1) / 2
    }
}

/// The largest active mode of a `point_count`-point grid; the maximal active
/// momentum is this mode times `2 pi / (point_count * lattice_spacing)`.
pub fn maximum_active_mode_1d(point_count: usize) -> (mode: usize)
    requires
        point_count > 0,
    ensures
        mode == maximum_active_mode(point_count as int),
{
    if point_count % 2 == 0 {
        point_count / 2 - 1
    } else {
        (point_count - 1) / 2
    }
}

/// The spectral bound is exact: every mode that the spectral derivative
/// multiplies by a nonzero momentum (all but the Nyquist mode) has
/// `|mode| <= maximum_active_mode(n)`, and one of them reaches it.
pub proof fn lemma_maximum_active_mode_is_tight(n: int, i: int)
    requires
        0 < n,
        0 <= i < n,
    ensures
        !nyquist_mode(i, n) ==> -maximum_active_mode(n) <= signed_mode(i, n) <= maximum_active_mode(n),
        0 <= maximum_active_mode(n) < n,
        !nyquist_mode(maximum_active_mode(n), n),
        signed_mode(maximum_active_mode(n), n) == maximum_active_mode(n),
{
}

} // verus!
