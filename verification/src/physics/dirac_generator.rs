use vstd::prelude::*;
use crate::physics::dirac_basis::{alpha_x_matrix, minus_i_beta_matrix, lemma_alpha_symmetric_involutions, lemma_minus_i_beta_structure};

verus! {

/// Entry of the real one-dimensional Majorana generator
/// `K = -alpha^x D + m(x) (-i beta)` between component `a` at lattice point
/// `p` and component `b` at point `q`, for a derivative matrix `derivative`
/// (`D[p][q]`) and a mass profile `mass`.
pub open spec fn generator_entry(
    derivative: spec_fn(int, int) -> int,
    mass: spec_fn(int) -> int,
    p: int,
    a: int,
    q: int,
    b: int,
) -> int {
    -(derivative(p, q) * alpha_x_matrix().entry(a, b)) + if p == q {
        mass(p) * minus_i_beta_matrix().entry(a, b)
    } else {
        0
    }
}

/// `K^T = -K`: whatever the mass profile, the generator is skew as soon as
/// the discrete derivative is (as the spectral derivative is), because
/// `alpha^x` is symmetric and `-i beta` antisymmetric. Skewness is what makes
/// the real evolution `e^{Kt}` preserve the norm.
pub proof fn lemma_generator_is_skew(
    derivative: spec_fn(int, int) -> int,
    mass: spec_fn(int) -> int,
    p: int,
    a: int,
    q: int,
    b: int,
)
    requires
        forall|i: int, j: int| #[trigger] derivative(i, j) == -derivative(j, i),
        0 <= a < 4,
        0 <= b < 4,
    ensures
        generator_entry(derivative, mass, p, a, q, b) == -generator_entry(derivative, mass, q, b, p, a),
{
    lemma_alpha_symmetric_involutions(0);
    lemma_minus_i_beta_structure(0);
    let alpha_ab = alpha_x_matrix().entry(a, b);
    let alpha_ba = alpha_x_matrix().entry(b, a);
    let beta_ab = minus_i_beta_matrix().entry(a, b);
    let beta_ba = minus_i_beta_matrix().entry(b, a);
    assert(alpha_ab == alpha_ba);
    assert(beta_ab == -beta_ba);
    let d_pq = derivative(p, q);
    let d_qp = derivative(q, p);
    assert(d_pq == -d_qp);
    assert(-(d_pq * alpha_ab) == d_qp * alpha_ba) by (nonlinear_arith)
        requires
            d_pq == -d_qp,
            alpha_ab == alpha_ba,
    ;
    if p == q {
        let m = mass(p);
        assert(m * beta_ab == -(m * beta_ba)) by (nonlinear_arith)
            requires
                beta_ab == -beta_ba,
        ;
    }
}

} // verus!
