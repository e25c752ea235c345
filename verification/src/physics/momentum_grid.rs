use vstd::prelude::*;

verus! {

/// The signed Fourier mode stored at position `index` of an `n`-point grid
/// in FFT order: `0, 1, ..., (n-1)/2` first, then the negative modes
/// `-(n/2), ..., -1`.
pub open spec fn signed_mode(index: int, n: int) -> int {
    if index <= (n - 1) / 2 {
        index
    } else {
        index - n
    }
}

/// The signed mode of grid position `momentum_index` on a `point_count`-point
/// lattice. The momentum there is this mode times `2 pi / (point_count * dx)`.
pub fn signed_mode_index(momentum_index: usize, point_count: usize) -> (mode: isize)
    requires
        momentum_index < point_count,
        point_count <= isize::MAX,
    ensures
        mode == signed_mode(momentum_index as int, point_count as int),
{
    let highest_nonnegative_mode_index = (point_count - 1) / 2;
    if momentum_index <= highest_nonnegative_mode_index {
        momentum_index as isize
    } else {
        momentum_index as isize - point_count as isize
    }
}

/// The signed modes of every position of a `point_count`-point grid, in
/// FFT order; the one-dimensional momentum grid is these modes times the
/// momentum step `2 pi / (point_count * lattice_spacing)`.
pub fn create_mode_grid_1d(point_count: usize) -> (modes: Vec<isize>)
    requires
        0 < point_count <= isize::MAX,
    ensures
        modes@.len() == point_count,
        forall|i: int| 0 <= i < point_count ==> #[trigger] modes@[i] == signed_mode(i, point_count as int),
{
    let mut modes: Vec<isize> = Vec::new();
    let mut momentum_index: usize = 0;
    while momentum_index < point_count
        invariant
            momentum_index <= point_count <= isize::MAX,
            modes@.len() == momentum_index,
            forall|i: int| 0 <= i < momentum_index ==> #[trigger] modes@[i] == signed_mode(i, point_count as int),
        decreases point_count - momentum_index,
    {
        modes.push(signed_mode_index(momentum_index, point_count));
        momentum_index = momentum_index + 1;
    }
    modes
}

/// Every mode lies in `[-(n/2), (n-1)/2]` and is its position or its
/// position minus `n`; different positions carry different modes, so the
/// grid holds each residue class modulo `n` exactly once.
pub proof fn lemma_signed_modes_are_balanced(n: int, i: int, k: int)
    requires
        0 < n,
        0 <= i < n,
        0 <= k < n,
    ensures
        -(n / 2) <= signed_mode(i, n) <= (n - 1) / 2,
        signed_mode(i, n) == i || signed_mode(i, n) == i - n,
        i != k ==> signed_mode(i, n) != signed_mode(k, n),
{
}

} // verus!
