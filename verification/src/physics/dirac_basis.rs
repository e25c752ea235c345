use vstd::prelude::*;
use crate::physics::j::majorana_j_matrix;
use crate::physics::spinor_operator::{SignedPermutation, SpinorOperator, inner_product};

verus! {

/// `alpha^x`: `(s0, s1, s2, s3) -> (s2, s3, s0, s1)`.
pub open spec fn alpha_x_matrix() -> SignedPermutation {
    SignedPermutation { source: seq![2, 3, 0, 1], negate: seq![false, false, false, false] }
}

/// `alpha^y`: `(s0, s1, s2, s3) -> (-s3, s2, s1, -s0)`.
pub open spec fn alpha_y_matrix() -> SignedPermutation {
    SignedPermutation { source: seq![3, 2, 1, 0], negate: seq![true, false, false, true] }
}

/// `alpha^z`: `(s0, s1, s2, s3) -> (s0, s1, -s2, -s3)`.
pub open spec fn alpha_z_matrix() -> SignedPermutation {
    SignedPermutation { source: seq![0, 1, 2, 3], negate: seq![false, false, true, true] }
}

/// `-i beta`, real in the Majorana representation:
/// `(s0, s1, s2, s3) -> (-s2, s3, s0, -s1)`.
pub open spec fn minus_i_beta_matrix() -> SignedPermutation {
    SignedPermutation { source: seq![2, 3, 0, 1], negate: seq![true, false, false, true] }
}

/// The three kinetic matrices `alpha^x`, `alpha^y`, `alpha^z`.
pub open spec fn alpha_matrix(axis: int) -> SignedPermutation {
    if axis == 0 {
        alpha_x_matrix()
    } else if axis == 1 {
        alpha_y_matrix()
    } else {
        alpha_z_matrix()
    }
}

impl SpinorOperator {
    /// The operator `alpha^x`.
    pub fn alpha_x() -> (op: SpinorOperator)
        ensures
            op@ == alpha_x_matrix(),
            forall|v: Seq<int>| v.len() == 4 ==> #[trigger] op@.act(v) == seq![v[2], v[3], v[0], v[1]],
    {
        let op = Self::from_tables([2, 3, 0, 1], [false, false, false, false]);
        assert(op@.source =~= alpha_x_matrix().source);
        assert(op@.negate =~= alpha_x_matrix().negate);
        proof {
            assert forall|v: Seq<int>| v.len() == 4 implies #[trigger] op@.act(v) == seq![v[2], v[3], v[0], v[1]] by {
                lemma_alpha_x_action(v);
            }
        }
        op
    }

    /// The operator `alpha^y`.
    pub fn alpha_y() -> (op: SpinorOperator)
        ensures
            op@ == alpha_y_matrix(),
            forall|v: Seq<int>| v.len() == 4 ==> #[trigger] op@.act(v) == seq![-v[3], v[2], v[1], -v[0]],
    {
        let op = Self::from_tables([3, 2, 1, 0], [true, false, false, true]);
        assert(op@.source =~= alpha_y_matrix().source);
        assert(op@.negate =~= alpha_y_matrix().negate);
        proof {
            assert forall|v: Seq<int>| v.len() == 4 implies #[trigger] op@.act(v) == seq![-v[3], v[2], v[1], -v[0]] by {
                lemma_alpha_y_action(v);
            }
        }
        op
    }

    /// The operator `alpha^z`.
    pub fn alpha_z() -> (op: SpinorOperator)
        ensures
            op@ == alpha_z_matrix(),
            forall|v: Seq<int>| v.len() == 4 ==> #[trigger] op@.act(v) == seq![v[0], v[1], -v[2], -v[3]],
    {
        let op = Self::from_tables([0, 1, 2, 3], [false, false, true, true]);
        assert(op@.source =~= alpha_z_matrix().source);
        assert(op@.negate =~= alpha_z_matrix().negate);
        proof {
            assert forall|v: Seq<int>| v.len() == 4 implies #[trigger] op@.act(v) == seq![v[0], v[1], -v[2], -v[3]] by {
                lemma_alpha_z_action(v);
            }
        }
        op
    }

    /// The operator `-i beta`.
    pub fn minus_i_beta() -> (op: SpinorOperator)
        ensures
            op@ == minus_i_beta_matrix(),
            forall|v: Seq<int>| v.len() == 4 ==> #[trigger] op@.act(v) == seq![-v[2], v[3], v[0], -v[1]],
    {
        let op = Self::from_tables([2, 3, 0, 1], [true, false, false, true]);
        assert(op@.source =~= minus_i_beta_matrix().source);
        assert(op@.negate =~= minus_i_beta_matrix().negate);
        proof {
            assert forall|v: Seq<int>| v.len() == 4 implies #[trigger] op@.act(v) == seq![-v[2], v[3], v[0], -v[1]] by {
                lemma_minus_i_beta_action(v);
            }
        }
        op
    }
}

/// Applies `alpha^x`: `(s[2], s[3], s[0], s[1])`.
pub fn apply_alpha_x<T: Copy>(state: &[T; 4]) -> (out: [T; 4])
    ensures
        out@ == seq![state@[2], state@[3], state@[0], state@[1]],
{
    let out = SpinorOperator::alpha_x().apply(state, state);
    assert(out@ =~= seq![state@[2], state@[3], state@[0], state@[1]]);
    out
}

/// Applies `alpha^y`: `(-s[3], s[2], s[1], -s[0])`; `negated` is the
/// componentwise negation of `state`.
pub fn apply_alpha_y<T: Copy>(state: &[T; 4], negated: &[T; 4]) -> (out: [T; 4])
    ensures
        out@ == seq![negated@[3], state@[2], state@[1], negated@[0]],
{
    let out = SpinorOperator::alpha_y().apply(state, negated);
    assert(out@ =~= seq![negated@[3], state@[2], state@[1], negated@[0]]);
    out
}

/// Applies `alpha^z`: `(s[0], s[1], -s[2], -s[3])`; `negated` is the
/// componentwise negation of `state`.
pub fn apply_alpha_z<T: Copy>(state: &[T; 4], negated: &[T; 4]) -> (out: [T; 4])
    ensures
        out@ == seq![state@[0], state@[1], negated@[2], negated@[3]],
{
    let out = SpinorOperator::alpha_z().apply(state, negated);
    assert(out@ =~= seq![state@[0], state@[1], negated@[2], negated@[3]]);
    out
}

/// Applies `-i beta`: `(-s[2], s[3], s[0], -s[1])`; `negated` is the
/// componentwise negation of `state`.
pub fn apply_minus_i_beta<T: Copy>(state: &[T; 4], negated: &[T; 4]) -> (out: [T; 4])
    ensures
        out@ == seq![negated@[2], state@[3], state@[0], negated@[1]],
{
    let out = SpinorOperator::minus_i_beta().apply(state, negated);
    assert(out@ =~= seq![negated@[2], state@[3], state@[0], negated@[1]]);
    out
}

/// What the operator does to a spinor, component by component:
/// `alpha^x (s0, s1, s2, s3) = (s2, s3, s0, s1)`.
pub proof fn lemma_alpha_x_action(v: Seq<int>)
    requires
        v.len() == 4,
    ensures
        alpha_x_matrix().act(v) == seq![v[2], v[3], v[0], v[1]],
{
    assert(alpha_x_matrix().act(v) =~= seq![v[2], v[3], v[0], v[1]]);
}

/// What the operator does to a spinor, component by component:
/// `alpha^y (s0, s1, s2, s3) = (-s3, s2, s1, -s0)`.
pub proof fn lemma_alpha_y_action(v: Seq<int>)
    requires
        v.len() == 4,
    ensures
        alpha_y_matrix().act(v) == seq![-v[3], v[2], v[1], -v[0]],
{
    assert(alpha_y_matrix().act(v) =~= seq![-v[3], v[2], v[1], -v[0]]);
}

/// What the operator does to a spinor, component by component:
/// `alpha^z (s0, s1, s2, s3) = (s0, s1, -s2, -s3)`.
pub proof fn lemma_alpha_z_action(v: Seq<int>)
    requires
        v.len() == 4,
    ensures
        alpha_z_matrix().act(v) == seq![v[0], v[1], -v[2], -v[3]],
{
    assert(alpha_z_matrix().act(v) =~= seq![v[0], v[1], -v[2], -v[3]]);
}

/// What the mass matrix does to a spinor, component by component:
/// `(-i beta) (s0, s1, s2, s3) = (-s2, s3, s0, -s1)`. This fixes
/// `-i beta` among the operators that satisfy its algebraic laws (`J (-i beta)`
/// satisfies them too).
pub proof fn lemma_minus_i_beta_action(v: Seq<int>)
    requires
        v.len() == 4,
    ensures
        minus_i_beta_matrix().act(v) == seq![-v[2], v[3], v[0], -v[1]],
{
    assert(minus_i_beta_matrix().act(v) =~= seq![-v[2], v[3], v[0], -v[1]]);
}

/// All Dirac-basis operators are signed permutations.
pub proof fn lemma_dirac_basis_wf()
    ensures
        alpha_x_matrix().wf(),
        alpha_y_matrix().wf(),
        alpha_z_matrix().wf(),
        minus_i_beta_matrix().wf(),
{
}

/// The kinetic matrices are real symmetric and square to the identity:
/// `(alpha^i)^T = alpha^i`, `(alpha^i)^2 = I`.
pub proof fn lemma_alpha_symmetric_involutions(axis: int)
    requires
        0 <= axis < 3,
    ensures
        alpha_matrix(axis).is_symmetric(),
        alpha_matrix(axis).compose(alpha_matrix(axis)).same_matrix(SignedPermutation::identity()),
{
}

/// Distinct kinetic matrices anticommute: `alpha^i alpha^k = -alpha^k alpha^i`.
pub proof fn lemma_alphas_anticommute(axis: int, other: int)
    requires
        0 <= axis < 3,
        0 <= other < 3,
        axis != other,
    ensures
        alpha_matrix(axis).compose(alpha_matrix(other)).same_matrix(
            alpha_matrix(other).compose(alpha_matrix(axis)).negation(),
        ),
{
}

/// `-i beta` is antisymmetric, squares to `-I` and anticommutes with every
/// `alpha^i`; the mass term of the real generator is therefore skew.
pub proof fn lemma_minus_i_beta_structure(axis: int)
    requires
        0 <= axis < 3,
    ensures
        minus_i_beta_matrix().is_antisymmetric(),
        minus_i_beta_matrix().compose(minus_i_beta_matrix()).same_matrix(SignedPermutation::identity().negation()),
        alpha_matrix(axis).compose(minus_i_beta_matrix()).same_matrix(
            minus_i_beta_matrix().compose(alpha_matrix(axis)).negation(),
        ),
{
}

/// `[J, alpha^i] = 0`: `J` commutes with every kinetic matrix.
pub proof fn lemma_j_commutes_with_alpha(axis: int)
    requires
        0 <= axis < 3,
    ensures
        majorana_j_matrix().compose(alpha_matrix(axis)).same_matrix(alpha_matrix(axis).compose(majorana_j_matrix())),
{
}

/// `{J, beta} = 0`: `J` anticommutes with the mass matrix `-i beta`.
pub proof fn lemma_j_anticommutes_with_beta()
    ensures
        majorana_j_matrix().compose(minus_i_beta_matrix()).same_matrix(
            minus_i_beta_matrix().compose(majorana_j_matrix()).negation(),
        ),
{
}

/// The local mass generator `m (-i beta)` is skew: `v^T (-i beta) v = 0` for
/// every real spinor `v`, so the mass term alone changes no norm.
pub proof fn lemma_mass_term_is_skew(v: Seq<int>)
    requires
        v.len() == 4,
    ensures
        inner_product(v, minus_i_beta_matrix().act(v)) == 0,
{
    let w = minus_i_beta_matrix().act(v);
    assert(w[0] == -v[2]);
    assert(w[1] == v[3]);
    assert(w[2] == v[0]);
    assert(w[3] == -v[1]);
    assert(v[0] * (-v[2]) + v[2] * v[0] == 0) by (nonlinear_arith);
    assert(v[1] * v[3] + v[3] * (-v[1]) == 0) by (nonlinear_arith);
}

} // verus!
