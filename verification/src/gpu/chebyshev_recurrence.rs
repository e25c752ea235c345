use vstd::prelude::*;
use vstd::bytes::{spec_u32_from_le_bytes, spec_u32_to_le_bytes};
use crate::gpu::dispatch::workgroup_count;
use crate::gpu::parameter_bytes::{push_le_word, push_zero_bytes};

verus! {

/// One of the two ping-pong basis buffers of the Chebyshev recurrence.
#[derive(Clone, Copy, Debug, PartialEq, Eq, Structural)]
pub enum BasisSlot {
    A,
    B,
}

impl BasisSlot {
    /// The other buffer.
    pub open spec fn other(self) -> BasisSlot {
        match self {
            BasisSlot::A => BasisSlot::B,
            BasisSlot::B => BasisSlot::A,
        }
    }
}

/// The two roles always sit in different buffers, and two recurrence steps
/// (two swaps) give every buffer its role back.
pub proof fn lemma_basis_roles_alternate(slot: BasisSlot)
    ensures
        slot.other() != slot,
        slot.other().other() == slot,
{
}

/// What one recurrence step dispatches: the bind group that reads `previous`
/// as the older basis, the dynamic offset of the step's parameter block and
/// the number of workgroups.
#[derive(Clone, Copy, Debug, PartialEq, Eq, Structural)]
pub struct RecurrenceDispatch {
    pub previous: BasisSlot,
    pub dynamic_offset: u32,
    pub workgroup_count: u32,
}

/// The constant-memory bookkeeping of the GPU Chebyshev recurrence
/// `phi_{n+1} = 2 K phi_n / s + phi_{n-1}`: two basis buffers swap the roles
/// "previous" and "current" after every step, and step `n` reads the
/// coefficient block at offset `n * parameter_stride`.
pub struct ChebyshevRecurrencePlan {
    point_count: u32,
    coefficient_count: usize,
    parameter_stride: u32,
    current_basis_is_a: bool,
}

impl ChebyshevRecurrencePlan {
    #[verifier::type_invariant]
    spec fn inv(self) -> bool {
        self.point_count > 0 && self.coefficient_count > 0
    }

    /// The buffer that holds the newest basis vector.
    pub closed spec fn current_slot(self) -> BasisSlot {
        if self.current_basis_is_a { BasisSlot::A } else { BasisSlot::B }
    }

    /// Coefficients in the table.
    pub closed spec fn coefficients(self) -> nat {
        self.coefficient_count as nat
    }

    /// Points of the field.
    pub closed spec fn points(self) -> nat {
        self.point_count as nat
    }

    /// Byte distance between the parameter blocks of consecutive orders.
    pub closed spec fn stride(self) -> nat {
        self.parameter_stride as nat
    }

    /// A recurrence over `point_count` points with `coefficient_count`
    /// coefficients, with roles as after `reset_basis_roles`.
    pub fn new(point_count: u32, coefficient_count: usize, parameter_stride: u32) -> (plan: ChebyshevRecurrencePlan)
        requires
            point_count > 0,
            coefficient_count > 0,
        ensures
            plan.points() == point_count,
            plan.coefficients() == coefficient_count,
            plan.stride() == parameter_stride,
            plan.current_slot() == BasisSlot::B,
    {
        ChebyshevRecurrencePlan { point_count, coefficient_count, parameter_stride, current_basis_is_a: false }
    }

    /// Restores the initial roles: A is the previous basis, B the current.
    pub fn reset_basis_roles(&mut self)
        ensures
            final(self).current_slot() == BasisSlot::B,
            final(self).points() == old(self).points(),
            final(self).coefficients() == old(self).coefficients(),
            final(self).stride() == old(self).stride(),
    {
        proof { use_type_invariant(&*self); }
        self.current_basis_is_a = false;
    }

    /// The buffer that holds the older basis vector.
    pub fn previous_basis(&self) -> (slot: BasisSlot)
        ensures
            slot == self.current_slot().other(),
    {
        if self.current_basis_is_a { BasisSlot::B } else { BasisSlot::A }
    }

    /// The buffer that holds the newest basis vector.
    pub fn current_basis(&self) -> (slot: BasisSlot)
        ensures
            slot == self.current_slot(),
    {
        if self.current_basis_is_a { BasisSlot::A } else { BasisSlot::B }
    }

    /// Records the recurrence step of order `coefficient_order`: it reads
    /// the current previous basis, the parameter block at
    /// `coefficient_order * parameter_stride`, and afterwards the two
    /// buffers swap roles. `None`, with nothing changed, when that offset
    /// does not fit a WebGPU dynamic offset (`u32`).
    pub fn record_step(&mut self, coefficient_order: usize) -> (dispatch: Option<RecurrenceDispatch>)
        requires
            coefficient_order < old(self).coefficients(),
        ensures
            final(self).points() == old(self).points(),
            final(self).coefficients() == old(self).coefficients(),
            final(self).stride() == old(self).stride(),
            dispatch is Some <==> coefficient_order * old(self).stride() <= u32::MAX,
            dispatch is None ==> final(self).current_slot() == old(self).current_slot(),
            dispatch matches Some(d) ==> {
                &&& d.previous == old(self).current_slot().other()
                &&& d.dynamic_offset == coefficient_order * old(self).stride()
                &&& d.workgroup_count as int == (old(self).points() + 63) / 64
                &&& final(self).current_slot() == old(self).current_slot().other()
            },
    {
        proof {
            use_type_invariant(&*self);
            let order = coefficient_order as int;
            let stride = self.parameter_stride as int;
            assert(order * stride <= 0x1_0000_0000_0000_0000 * 0x1_0000_0000) by (nonlinear_arith)
                requires
                    0 <= order <= 0x1_0000_0000_0000_0000,
                    0 <= stride <= 0x1_0000_0000,
            ;
        }
        let parameter_offset: u128 = coefficient_order as u128 * self.parameter_stride as u128;
        if parameter_offset > u32::MAX as u128 {
            return None;
        }
        let previous = self.previous_basis();
        let dispatch = RecurrenceDispatch {
            previous,
            dynamic_offset: parameter_offset as u32,
            workgroup_count: workgroup_count(self.point_count),
        };
        self.current_basis_is_a = !self.current_basis_is_a;
        Some(dispatch)
    }
}

/// The parameter block of one coefficient: its `f32` bit pattern, the point
/// count (both little-endian), then zero padding up to `stride` bytes.
pub open spec fn step_parameter_block(point_count: u32, coefficient_bits: u32, stride: nat) -> Seq<u8> {
    spec_u32_to_le_bytes(coefficient_bits) + spec_u32_to_le_bytes(point_count) + Seq::new(
        (stride - 8) as nat,
        |i: int| 0u8,
    )
}

/// The whole uniform buffer of the recurrence: one block per coefficient.
pub open spec fn step_parameter_layout(point_count: u32, coefficient_bits: Seq<u32>, stride: nat) -> Seq<u8>
    decreases coefficient_bits.len(),
{
    if coefficient_bits.len() == 0 {
        Seq::empty()
    } else {
        step_parameter_layout(point_count, coefficient_bits.drop_last(), stride)
            + step_parameter_block(point_count, coefficient_bits.last(), stride)
    }
}

/// Word `w` (decoded little-endian) of the parameter block of order `n`.
pub open spec fn block_word(bytes: Seq<u8>, stride: nat, n: int, w: int) -> u32 {
    spec_u32_from_le_bytes(bytes.subrange(n * stride + 4 * w, n * stride + 4 * w + 4))
}

/// The uniform buffer of the recurrence: for each coefficient order `n`, a
/// block at byte `n * parameter_stride` holding the coefficient (as the bit
/// pattern of its `f32` value) and the point count, the rest zero.
pub fn create_step_parameter_bytes(point_count: u32, coefficient_bits: &[u32], parameter_stride: u32) -> (bytes: Vec<u8>)
    requires
        coefficient_bits@.len() == 0 || parameter_stride >= 8,
        parameter_stride * coefficient_bits@.len() <= usize::MAX,
    ensures
        bytes@ == step_parameter_layout(point_count, coefficient_bits@, parameter_stride as nat),
        bytes@.len() == parameter_stride * coefficient_bits@.len(),
        forall|n: int| 0 <= n < coefficient_bits@.len()
            ==> #[trigger] block_word(bytes@, parameter_stride as nat, n, 0) == coefficient_bits@[n],
        forall|n: int| 0 <= n < coefficient_bits@.len()
            ==> #[trigger] block_word(bytes@, parameter_stride as nat, n, 1) == point_count,
{
    let mut bytes: Vec<u8> = Vec::new();
    let mut order: usize = 0;
    while order < coefficient_bits.len()
        invariant
            coefficient_bits@.len() > 0 ==> parameter_stride >= 8,
            order <= coefficient_bits@.len(),
            bytes@ == step_parameter_layout(point_count, coefficient_bits@.take(order as int), parameter_stride as nat),
        decreases coefficient_bits@.len() - order,
    {
        let ghost before = bytes@;
        push_le_word(&mut bytes, coefficient_bits[order]);
        push_le_word(&mut bytes, point_count);
        push_zero_bytes(&mut bytes, parameter_stride as usize - 8);
        proof {
            assert(coefficient_bits@.take(order + 1).drop_last() =~= coefficient_bits@.take(order as int));
            assert(bytes@ =~= before + step_parameter_block(point_count, coefficient_bits@[order as int], parameter_stride as nat));
        }
        order = order + 1;
    }
    assert(coefficient_bits@.take(coefficient_bits@.len() as int) =~= coefficient_bits@);
    proof {
        if coefficient_bits@.len() > 0 {
            lemma_step_parameter_layout_len(point_count, coefficient_bits@, parameter_stride as nat);
        }
        assert forall|n: int| 0 <= n < coefficient_bits@.len()
            implies #[trigger] block_word(bytes@, parameter_stride as nat, n, 0) == coefficient_bits@[n] by {
            lemma_step_parameter_words(point_count, coefficient_bits@, parameter_stride as nat, n);
            assert(n * parameter_stride + 4 * 0 == n * parameter_stride);
        }
        assert forall|n: int| 0 <= n < coefficient_bits@.len()
            implies #[trigger] block_word(bytes@, parameter_stride as nat, n, 1) == point_count by {
            lemma_step_parameter_words(point_count, coefficient_bits@, parameter_stride as nat, n);
            assert(n * parameter_stride + 4 * 1 == n * parameter_stride + 4);
        }
    }
    bytes
}

/// Each parameter block spans exactly one stride.
pub proof fn lemma_step_parameter_block_len(point_count: u32, coefficient_bits: u32, stride: nat)
    requires
        stride >= 8,
    ensures
        step_parameter_block(point_count, coefficient_bits, stride).len() == stride,
{
    vstd::bytes::lemma_auto_spec_u32_to_from_le_bytes();
    assert(spec_u32_to_le_bytes(coefficient_bits).len() == 4);
    assert(spec_u32_to_le_bytes(point_count).len() == 4);
}

/// The recurrence's uniform buffer holds `stride` bytes per coefficient, and
/// the block of coefficient order `n` starts at byte `n * stride`: exactly
/// the dynamic offset that `ChebyshevRecurrencePlan::record_step` hands out
/// for order `n`.
pub proof fn lemma_step_parameter_layout(point_count: u32, coefficient_bits: Seq<u32>, stride: nat, n: int)
    requires
        stride >= 8,
        0 <= n < coefficient_bits.len(),
    ensures
        step_parameter_layout(point_count, coefficient_bits, stride).len() == stride * coefficient_bits.len(),
        step_parameter_layout(point_count, coefficient_bits, stride).subrange(n * stride, n * stride + stride)
            == step_parameter_block(point_count, coefficient_bits[n], stride),
    decreases coefficient_bits.len(),
{
    let rest = coefficient_bits.drop_last();
    lemma_step_parameter_layout_len(point_count, rest, stride);
    lemma_step_parameter_block_len(point_count, coefficient_bits.last(), stride);
    let whole = step_parameter_layout(point_count, coefficient_bits, stride);
    let prefix = step_parameter_layout(point_count, rest, stride);
    assert(whole.len() == stride * coefficient_bits.len()) by (nonlinear_arith)
        requires
            whole.len() == prefix.len() + stride,
            prefix.len() == stride * rest.len(),
            rest.len() == coefficient_bits.len() - 1,
    ;
    assert(n * stride + stride <= stride * coefficient_bits.len()) by (nonlinear_arith)
        requires
            0 <= n < coefficient_bits.len(),
            stride >= 0,
    ;
    if n < coefficient_bits.len() - 1 {
        lemma_step_parameter_layout(point_count, rest, stride, n);
        assert(n * stride + stride <= stride * rest.len()) by (nonlinear_arith)
            requires
                0 <= n < rest.len(),
                stride >= 0,
        ;
        assert(whole.subrange(n * stride, n * stride + stride) =~= prefix.subrange(n * stride, n * stride + stride));
    } else {
        assert(n * stride == stride * rest.len()) by (nonlinear_arith)
            requires
                n == rest.len(),
        ;
        assert(whole.subrange(n * stride, n * stride + stride)
            =~= step_parameter_block(point_count, coefficient_bits.last(), stride));
    }
}

/// The recurrence's uniform buffer holds `stride` bytes per coefficient.
pub proof fn lemma_step_parameter_layout_len(point_count: u32, coefficient_bits: Seq<u32>, stride: nat)
    requires
        stride >= 8,
    ensures
        step_parameter_layout(point_count, coefficient_bits, stride).len() == stride * coefficient_bits.len(),
    decreases coefficient_bits.len(),
{
    if coefficient_bits.len() > 0 {
        let rest = coefficient_bits.drop_last();
        lemma_step_parameter_layout_len(point_count, rest, stride);
        lemma_step_parameter_block_len(point_count, coefficient_bits.last(), stride);
        let prefix = step_parameter_layout(point_count, rest, stride);
        assert(prefix.len() + stride == stride * coefficient_bits.len()) by (nonlinear_arith)
            requires
                prefix.len() == stride * rest.len(),
                rest.len() == coefficient_bits.len() - 1,
        ;
    }
}


/// Decoded word by word, the block of coefficient order `n` in the
/// recurrence's uniform buffer holds the coefficient's bit pattern at byte
/// `n * stride`, the point count itself at byte `n * stride + 4`, and zeros up
/// to the next block.
pub proof fn lemma_step_parameter_words(point_count: u32, coefficient_bits: Seq<u32>, stride: nat, n: int)
    requires
        stride >= 8,
        0 <= n < coefficient_bits.len(),
    ensures
        ({
            let bytes = step_parameter_layout(point_count, coefficient_bits, stride);
            &&& bytes.len() == stride * coefficient_bits.len()
            &&& spec_u32_from_le_bytes(bytes.subrange(n * stride, n * stride + 4)) == coefficient_bits[n]
            &&& spec_u32_from_le_bytes(bytes.subrange(n * stride + 4, n * stride + 8)) == point_count
            &&& forall|j: int| n * stride + 8 <= j < n * stride + stride ==> #[trigger] bytes[j] == 0u8
        }),
{
    vstd::bytes::lemma_auto_spec_u32_to_from_le_bytes();
    lemma_step_parameter_layout(point_count, coefficient_bits, stride, n);
    let bytes = step_parameter_layout(point_count, coefficient_bits, stride);
    let block = bytes.subrange(n * stride, n * stride + stride);
    let c = spec_u32_to_le_bytes(coefficient_bits[n]);
    let q = spec_u32_to_le_bytes(point_count);
    assert(block == c + q + Seq::new((stride - 8) as nat, |i: int| 0u8));
    assert(c.len() == 4);
    assert(q.len() == 4);
    let base = n * stride;
    assert(base + stride <= stride * coefficient_bits.len()) by (nonlinear_arith)
        requires
            0 <= n < coefficient_bits.len(),
            base == n * stride,
    ;
    assert forall|j: int| 0 <= j < stride implies #[trigger] bytes[base + j] == block[j] by {}
    assert forall|j: int| 0 <= j < 4 implies #[trigger] bytes.subrange(base, base + 4)[j] == c[j] by {
        assert(bytes[base + j] == block[j]);
    }
    assert(bytes.subrange(base, base + 4) =~= c);
    assert forall|j: int| 0 <= j < 4 implies #[trigger] bytes.subrange(base + 4, base + 8)[j] == q[j] by {
        assert(bytes[base + (j + 4)] == block[j + 4]);
    }
    assert(bytes.subrange(base + 4, base + 8) =~= q);
    assert forall|j: int| n * stride + 8 <= j < n * stride + stride implies #[trigger] bytes[j] == 0u8 by {
        assert(bytes[j] == block[j - n * stride]);
    }
}

} // verus!
