use vstd::prelude::*;

verus! {

/// Sign `+1` or `-1` as an integer.
pub open spec fn sign_of(negate: bool) -> int {
    if negate { -1 } else { 1 }
}

/// `-v` for a four-component spinor.
pub open spec fn negated_spinor(v: Seq<int>) -> Seq<int> {
    Seq::new(4, |i: int| -v[i])
}

/// The Euclidean inner product `a^T b` of two four-component spinors.
pub open spec fn inner_product(a: Seq<int>, b: Seq<int>) -> int {
    a[0] * b[0] + a[1] * b[1] + a[2] * b[2] + a[3] * b[3]
}

/// `a^T a`, the norm that real Majorana evolution preserves.
pub open spec fn norm_squared(a: Seq<int>) -> int {
    inner_product(a, a)
}

/// Mathematical model of a signed permutation of four spinor components:
/// output component `i` is input component `source[i]`, negated when
/// `negate[i]`. As a matrix its row `i` has the single entry `+-1` in
/// column `source[i]`.
pub struct SignedPermutation {
    pub source: Seq<int>,
    pub negate: Seq<bool>,
}

impl SignedPermutation {
    /// Four slots, and the sources are a permutation of `0..4`.
    pub open spec fn wf(self) -> bool {
        &&& self.source.len() == 4
        &&& self.negate.len() == 4
        &&& forall|i: int| 0 <= i < 4 ==> 0 <= #[trigger] self.source[i] < 4
        &&& forall|i: int, k: int|
            0 <= i < 4 && 0 <= k < 4 && i != k ==> #[trigger] self.source[i] != #[trigger] self.source[k]
    }

    /// Matrix entry in row `row`, column `col`.
    pub open spec fn entry(self, row: int, col: int) -> int {
        if self.source[row] == col { sign_of(self.negate[row]) } else { 0 }
    }

    /// The action on a four-component spinor.
    pub open spec fn act(self, v: Seq<int>) -> Seq<int> {
        Seq::new(4, |i: int| sign_of(self.negate[i]) * v[self.source[i]])
    }

    /// The product `self * other`: `other` acts first.
    pub open spec fn compose(self, other: SignedPermutation) -> SignedPermutation {
        SignedPermutation {
            source: Seq::new(4, |i: int| other.source[self.source[i]]),
            negate: Seq::new(4, |i: int| self.negate[i] != other.negate[self.source[i]]),
        }
    }

    /// `-self`.
    pub open spec fn negation(self) -> SignedPermutation {
        SignedPermutation { source: self.source, negate: Seq::new(4, |i: int| !self.negate[i]) }
    }

    /// The identity matrix.
    pub open spec fn identity() -> SignedPermutation {
        SignedPermutation { source: seq![0, 1, 2, 3], negate: seq![false, false, false, false] }
    }

    /// Two signed permutations are the same matrix.
    pub open spec fn same_matrix(self, other: SignedPermutation) -> bool {
        forall|row: int, col: int| 0 <= row < 4 && 0 <= col < 4 ==> #[trigger] self.entry(row, col) == other.entry(row, col)
    }

    /// The matrix is symmetric: `M^T = M`.
    pub open spec fn is_symmetric(self) -> bool {
        forall|row: int, col: int| 0 <= row < 4 && 0 <= col < 4 ==> #[trigger] self.entry(row, col) == self.entry(col, row)
    }

    /// The matrix is antisymmetric: `M^T = -M`.
    pub open spec fn is_antisymmetric(self) -> bool {
        forall|row: int, col: int| 0 <= row < 4 && 0 <= col < 4 ==> #[trigger] self.entry(row, col) == -self.entry(col, row)
    }
}

/// A signed permutation of the four real components of a Majorana spinor.
/// Every operator of the Majorana Dirac basis (`J`, the `alpha` matrices and
/// `-i beta`) has this form, so applying one only moves and negates
/// components.
#[derive(Clone, Copy, Debug)]
pub struct SpinorOperator {
    source: [usize; 4],
    negate: [bool; 4],
}

impl View for SpinorOperator {
    type V = SignedPermutation;

    closed spec fn view(&self) -> SignedPermutation {
        SignedPermutation {
            source: Seq::new(4, |i: int| self.source@[i] as int),
            negate: self.negate@,
        }
    }
}

impl SpinorOperator {
    #[verifier::type_invariant]
    spec fn inv(self) -> bool {
        self@.wf()
    }

    pub(crate) fn from_tables(source: [usize; 4], negate: [bool; 4]) -> (op: SpinorOperator)
        requires
            forall|i: int| 0 <= i < 4 ==> #[trigger] source@[i] < 4,
            forall|i: int, k: int| 0 <= i < 4 && 0 <= k < 4 && i != k ==> #[trigger] source@[i] != #[trigger] source@[k],
        ensures
            op@.source == Seq::new(4, |i: int| source@[i] as int),
            op@.negate == negate@,
    {
        SpinorOperator { source, negate }
    }

    /// The slot of the input that lands in output slot `i`.
    pub fn source(&self, i: usize) -> (s: usize)
        requires
            i < 4,
        ensures
            s == self@.source[i as int],
            s < 4,
    {
        proof { use_type_invariant(self); }
        self.source[i]
    }

    /// Whether output slot `i` is negated.
    pub fn negates(&self, i: usize) -> (n: bool)
        requires
            i < 4,
        ensures
            n == self@.negate[i as int],
    {
        self.negate[i]
    }

    /// Applies the operator to `state`. The caller hands in `negated`, the
    /// componentwise negation of `state`, so that the operator only chooses
    /// components: slot `i` of the result is `state[source(i)]`, or
    /// `negated[source(i)]` where the operator negates slot `i`.
    pub fn apply<T: Copy>(&self, state: &[T; 4], negated: &[T; 4]) -> (out: [T; 4])
        ensures
            forall|i: int| 0 <= i < 4 ==> #[trigger] out@[i] == if self@.negate[i] {
                negated@[self@.source[i]]
            } else {
                state@[self@.source[i]]
            },
    {
        let pick = |i: usize| -> (c: T)
            requires
                i < 4,
            ensures
                c == if self@.negate[i as int] { negated@[self@.source[i as int]] } else { state@[self@.source[i as int]] },
        {
            let s = self.source(i);
            if self.negates(i) { negated[s] } else { state[s] }
        };
        [pick(0), pick(1), pick(2), pick(3)]
    }
}

impl SpinorOperator {
    /// `-self`: the same permutation with every sign flipped.
    pub fn negation(&self) -> (op: SpinorOperator)
        ensures
            op@ == self@.negation(),
    {
        proof { use_type_invariant(self); }
        let op = SpinorOperator {
            source: self.source,
            negate: [!self.negate[0], !self.negate[1], !self.negate[2], !self.negate[3]],
        };
        assert(op@.negate =~= self@.negation().negate);
        assert(op@.source =~= self@.source);
        op
    }

    /// The identity operator.
    pub fn identity() -> (op: SpinorOperator)
        ensures
            op@ == SignedPermutation::identity(),
    {
        let op = Self::from_tables([0, 1, 2, 3], [false, false, false, false]);
        assert(op@.source =~= SignedPermutation::identity().source);
        assert(op@.negate =~= SignedPermutation::identity().negate);
        op
    }
}

/// Applying a product is applying its factors in turn.
pub proof fn lemma_act_compose(p: SignedPermutation, q: SignedPermutation, v: Seq<int>)
    requires
        p.wf(),
        q.wf(),
        v.len() == 4,
    ensures
        p.compose(q).act(v) == p.act(q.act(v)),
{
    assert forall|i: int| 0 <= i < 4 implies #[trigger] p.compose(q).act(v)[i] == p.act(q.act(v))[i] by {
        let s = p.source[i];
        assert(q.act(v)[s] == sign_of(q.negate[s]) * v[q.source[s]]);
        if p.negate[i] {
            if q.negate[s] {
                assert(-1 * (-1 * v[q.source[s]]) == v[q.source[s]]);
            }
        }
    }
    assert(p.compose(q).act(v) =~= p.act(q.act(v)));
}

/// A product of signed permutations is a signed permutation.
pub proof fn lemma_compose_wf(p: SignedPermutation, q: SignedPermutation)
    requires
        p.wf(),
        q.wf(),
    ensures
        p.compose(q).wf(),
{
    let c = p.compose(q);
    assert forall|i: int, k: int| 0 <= i < 4 && 0 <= k < 4 && i != k implies #[trigger] c.source[i] != #[trigger] c.source[k] by {
        assert(p.source[i] != p.source[k]);
    }
}

/// Negating an operator negates its action.
pub proof fn lemma_act_negation(p: SignedPermutation, v: Seq<int>)
    requires
        p.wf(),
        v.len() == 4,
    ensures
        p.negation().act(v) == negated_spinor(p.act(v)),
{
    assert(p.negation().act(v) =~= negated_spinor(p.act(v)));
}

proof fn lemma_sign_square(negate: bool, x: int)
    ensures
        (sign_of(negate) * x) * (sign_of(negate) * x) == x * x,
{
    if negate {
        assert((-1 * x) * (-1 * x) == x * x) by (nonlinear_arith);
    }
}

/// Every signed permutation is orthogonal: it preserves `v^T v`.
pub proof fn lemma_act_preserves_norm(p: SignedPermutation, v: Seq<int>)
    requires
        p.wf(),
        v.len() == 4,
    ensures
        norm_squared(p.act(v)) == norm_squared(v),
{
    let w = p.act(v);
    lemma_sign_square(p.negate[0], v[p.source[0]]);
    lemma_sign_square(p.negate[1], v[p.source[1]]);
    lemma_sign_square(p.negate[2], v[p.source[2]]);
    lemma_sign_square(p.negate[3], v[p.source[3]]);
    assert(w[0] * w[0] == v[p.source[0]] * v[p.source[0]]);
    assert(w[1] * w[1] == v[p.source[1]] * v[p.source[1]]);
    assert(w[2] * w[2] == v[p.source[2]] * v[p.source[2]]);
    assert(w[3] * w[3] == v[p.source[3]] * v[p.source[3]]);
    assert(p.source[0] != p.source[1]);
    assert(p.source[0] != p.source[2]);
    assert(p.source[0] != p.source[3]);
    assert(p.source[1] != p.source[2]);
    assert(p.source[1] != p.source[3]);
    assert(p.source[2] != p.source[3]);
}

} // verus!
