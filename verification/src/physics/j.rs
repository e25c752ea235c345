use vstd::prelude::*;
use crate::physics::spinor_operator::{SignedPermutation, SpinorOperator, negated_spinor};

verus! {

/// The real complex structure `J = i gamma^5` of the Majorana representation:
/// `J (s0, s1, s2, s3) = (s1, -s0, s3, -s2)`.
pub open spec fn majorana_j_matrix() -> SignedPermutation {
    SignedPermutation { source: seq![1, 0, 3, 2], negate: seq![false, true, false, true] }
}

impl SpinorOperator {
    /// The operator `J`; a state `s` maps to `(s[1], -s[0], s[3], -s[2])`.
    pub fn majorana_j() -> (op: SpinorOperator)
        ensures
            op@ == majorana_j_matrix(),
            forall|v: Seq<int>| v.len() == 4 ==> #[trigger] op@.act(v) == seq![v[1], -v[0], v[3], -v[2]],
    {
        let op = Self::from_tables([1, 0, 3, 2], [false, true, false, true]);
        assert(op@.source =~= majorana_j_matrix().source);
        assert(op@.negate =~= majorana_j_matrix().negate);
        proof {
            assert forall|v: Seq<int>| v.len() == 4 implies #[trigger] op@.act(v) == seq![v[1], -v[0], v[3], -v[2]] by {
                lemma_majorana_j_action(v);
            }
        }
        op
    }
}

/// Applies `J` to one Majorana spinor: `(s[1], -s[0], s[3], -s[2])`. The
/// caller passes `negated`, the componentwise negation of `state`.
pub fn apply_j<T: Copy>(state: &[T; 4], negated: &[T; 4]) -> (out: [T; 4])
    ensures
        out@ == seq![state@[1], negated@[0], state@[3], negated@[2]],
{
    let out = SpinorOperator::majorana_j().apply(state, negated);
    assert(out@ =~= seq![state@[1], negated@[0], state@[3], negated@[2]]);
    out
}

/// What `J` does to a spinor, component by component:
/// `J (s0, s1, s2, s3) = (s1, -s0, s3, -s2)`. This fixes the sign of `J`,
/// which `J^2 = -I` and the commutation laws alone leave open.
pub proof fn lemma_majorana_j_action(v: Seq<int>)
    requires
        v.len() == 4,
    ensures
        majorana_j_matrix().act(v) == seq![v[1], -v[0], v[3], -v[2]],
{
    assert(majorana_j_matrix().act(v) =~= seq![v[1], -v[0], v[3], -v[2]]);
}

/// `J` is a signed permutation.
pub proof fn lemma_majorana_j_wf()
    ensures
        majorana_j_matrix().wf(),
{
}

/// `J^2 = -I`: applying `J` twice negates every spinor, so `J` is a complex
/// structure on the real four-dimensional spinor space.
pub proof fn lemma_j_squared_is_minus_identity(v: Seq<int>)
    requires
        v.len() == 4,
    ensures
        majorana_j_matrix().act(majorana_j_matrix().act(v)) == negated_spinor(v),
        majorana_j_matrix().compose(majorana_j_matrix()).same_matrix(SignedPermutation::identity().negation()),
{
    let j = majorana_j_matrix();
    assert(j.act(j.act(v)) =~= negated_spinor(v));
}

/// `J^T = -J`.
pub proof fn lemma_j_is_antisymmetric()
    ensures
        majorana_j_matrix().is_antisymmetric(),
{
}

/// `J` preserves the norm: `(J v)^T (J v) = v^T v`.
pub proof fn lemma_j_preserves_norm(v: Seq<int>)
    requires
        v.len() == 4,
    ensures
        crate::physics::spinor_operator::norm_squared(majorana_j_matrix().act(v))
            == crate::physics::spinor_operator::norm_squared(v),
{
    crate::physics::spinor_operator::lemma_act_preserves_norm(majorana_j_matrix(), v);
}

} // verus!
