use vstd::prelude::*;
use crate::physics::momentum_grid::signed_mode;

verus! {

/// The Nyquist mode of an even grid, the one position whose mode has no
/// partner of opposite sign.
pub open spec fn nyquist_mode(frequency_index: int, n: int) -> bool {
    n % 2 == 0 && frequency_index == n / 2
}

/// Whether `frequency_index` is the Nyquist mode of a `point_count`-point
/// grid. The spectral derivative multiplies that mode by zero momentum, so
/// that the derivative of a real field stays real.
pub fn is_nyquist_mode(frequency_index: usize, point_count: usize) -> (nyquist: bool)
    ensures
        nyquist == nyquist_mode(frequency_index as int, point_count as int),
{
    point_count % 2 == 0 && frequency_index == point_count / 2
}


/// The Nyquist mode is exactly the grid position whose signed mode has no
/// partner of opposite sign on the grid; every other position (in
/// particular every other negative mode) has one, and so keeps its momentum.
/// There is at most one such position, and it exists exactly on even grids.
pub proof fn lemma_nyquist_mode_has_no_partner(n: int, i: int)
    requires
        0 < n,
        0 <= i < n,
    ensures
        nyquist_mode(i, n) <==> !(exists|k: int| 0 <= k < n && #[trigger] signed_mode(k, n) == -signed_mode(i, n)),
        nyquist_mode(i, n) ==> signed_mode(i, n) == -(n / 2),
        (n % 2 == 0) <==> nyquist_mode(n / 2, n),
        forall|k: int| 0 <= k < n && nyquist_mode(i, n) && #[trigger] nyquist_mode(k, n) ==> k == i,
{
    let m = signed_mode(i, n);
    if nyquist_mode(i, n) {
        assert forall|k: int| 0 <= k < n implies #[trigger] signed_mode(k, n) != -m by {
            assert(signed_mode(k, n) <= (n - 1) / 2);
        }
    } else {
        let k = if m == 0 { 0 } else if m > 0 { n - m } else { -m };
        assert(0 <= k < n);
        assert(signed_mode(k, n) == -m);
    }
}

} // verus!
