use vstd::prelude::*;
use crate::gpu::chebyshev_recurrence::BasisSlot;
use crate::gpu::parameter_bytes::{encode_words_le, le_word_at, lemma_words_le_bytes_layout, words_le_bytes};

verus! {

/// One GPU operation of a Chebyshev propagation step, in recording order.
#[derive(Clone, Copy, Debug, PartialEq, Eq, Structural)]
pub enum PropagationCommand {
    /// Copy the state buffer into the recurrence's previous basis.
    CopyStateToPreviousBasis,
    /// Apply the scaled generator `K / s` to this basis buffer, writing the
    /// generator scratch buffer.
    ApplyGenerator(BasisSlot),
    /// Copy the generator scratch buffer into the recurrence's current basis.
    CopyScratchToCurrentBasis,
    /// Start the accumulator with the order-0 and order-1 terms.
    InitializeAccumulator,
    /// Run the recurrence step of this coefficient order.
    RecurrenceStep(usize),
    /// Copy the accumulated result back into the state buffer.
    CopyAccumulatorToState,
}

/// The basis buffer the generator reads before recurrence step `order`:
/// B for even orders, A for odd ones.
pub open spec fn generator_slot_for_order(order: int) -> BasisSlot {
    if order % 2 == 0 { BasisSlot::B } else { BasisSlot::A }
}

/// The pairs "apply generator, recurrence step" for orders `2..=max_order`.
pub open spec fn recurrence_commands(max_order: int) -> Seq<PropagationCommand> {
    Seq::new(
        if max_order >= 2 { (2 * (max_order - 1)) as nat } else { 0 },
        |i: int|
            if i % 2 == 0 {
                PropagationCommand::ApplyGenerator(generator_slot_for_order(2 + i / 2))
            } else {
                PropagationCommand::RecurrenceStep((2 + i / 2) as usize)
            },
    )
}

/// The full command sequence of one propagation step.
pub open spec fn propagation_commands(max_order: int) -> Seq<PropagationCommand> {
    seq![
        PropagationCommand::CopyStateToPreviousBasis,
        PropagationCommand::ApplyGenerator(BasisSlot::A),
        PropagationCommand::CopyScratchToCurrentBasis,
        PropagationCommand::InitializeAccumulator,
    ] + recurrence_commands(max_order) + seq![PropagationCommand::CopyAccumulatorToState]
}

/// The commands of one Chebyshev propagation step of order `max_order`:
/// load the state as `phi_0`, form `phi_1 = K phi_0 / s`, start the
/// accumulator, then for every order `2..=max_order` apply the generator to
/// the newest basis vector and run the recurrence step, and finally store
/// the accumulated state.
pub fn propagation_step_commands(max_order: usize) -> (commands: Vec<PropagationCommand>)
    requires
        max_order < usize::MAX,
    ensures
        commands@ == propagation_commands(max_order as int),
        commands@.len() == if max_order >= 2 { 2 * max_order + 3 } else { 5 },
        commands@[0] == PropagationCommand::CopyStateToPreviousBasis,
        commands@[1] == PropagationCommand::ApplyGenerator(BasisSlot::A),
        commands@[2] == PropagationCommand::CopyScratchToCurrentBasis,
        commands@[3] == PropagationCommand::InitializeAccumulator,
        forall|n: int| 2 <= n <= max_order ==> #[trigger] commands@[2 * n] == PropagationCommand::ApplyGenerator(
            if n % 2 == 0 { BasisSlot::B } else { BasisSlot::A },
        ),
        forall|n: int| 2 <= n <= max_order ==> #[trigger] commands@[2 * n + 1] == PropagationCommand::RecurrenceStep(
            n as usize,
        ),
        commands@.last() == PropagationCommand::CopyAccumulatorToState,
{
    let mut commands: Vec<PropagationCommand> = Vec::new();
    commands.push(PropagationCommand::CopyStateToPreviousBasis);
    commands.push(PropagationCommand::ApplyGenerator(BasisSlot::A));
    commands.push(PropagationCommand::CopyScratchToCurrentBasis);
    commands.push(PropagationCommand::InitializeAccumulator);
    let ghost head = commands@;
    let mut order: usize = 2;
    while order <= max_order
        invariant
            2 <= order,
            order <= max_order + 1 || order == 2,
            max_order < usize::MAX,
            commands@ == head + recurrence_commands(order - 1),
        decreases max_order + 1 - order,
    {
        let slot = if order % 2 == 0 { BasisSlot::B } else { BasisSlot::A };
        commands.push(PropagationCommand::ApplyGenerator(slot));
        commands.push(PropagationCommand::RecurrenceStep(order));
        proof {
            assert(recurrence_commands(order as int) =~= recurrence_commands(order - 1).push(
                PropagationCommand::ApplyGenerator(generator_slot_for_order(order as int)),
            ).push(PropagationCommand::RecurrenceStep(order)));
        }
        order = order + 1;
    }
    commands.push(PropagationCommand::CopyAccumulatorToState);
    proof {
        if max_order >= 2 {
            assert(order - 1 == max_order);
        } else {
            assert(recurrence_commands(order - 1) =~= recurrence_commands(max_order as int));
        }
        assert(commands@ =~= propagation_commands(max_order as int));
        let rec = recurrence_commands(max_order as int);
        assert forall|n: int| 2 <= n <= max_order implies #[trigger] commands@[2 * n] == PropagationCommand::ApplyGenerator(
            if n % 2 == 0 { BasisSlot::B } else { BasisSlot::A },
        ) by {
            let i = 2 * n - 4;
            assert(i % 2 == 0 && i / 2 == n - 2);
            assert(commands@[2 * n] == rec[i]);
        }
        assert forall|n: int| 2 <= n <= max_order implies #[trigger] commands@[2 * n + 1] == PropagationCommand::RecurrenceStep(
            n as usize,
        ) by {
            let i = 2 * n - 3;
            assert(i % 2 == 1 && i / 2 == n - 2);
            assert(commands@[2 * n + 1] == rec[i]);
        }
    }
    commands
}

/// The basis buffer that is "current" after a reset followed by `steps`
/// recurrence steps, as `ChebyshevRecurrencePlan::reset_basis_roles` and
/// `ChebyshevRecurrencePlan::record_step` state it: B, then swapped at
/// every step.
pub open spec fn current_slot_after_steps(steps: nat) -> BasisSlot
    decreases steps,
{
    if steps == 0 {
        BasisSlot::B
    } else {
        current_slot_after_steps((steps - 1) as nat).other()
    }
}

/// The propagation plan and the recurrence agree on the ping-pong buffers:
/// before the recurrence step of every order `n` in `2..=max_order`, the
/// plan applies the generator to the buffer the recurrence holds as its
/// current basis (`phi_{n-1}`), and that step is recorded right after it.
/// The first generator application reads A, the previous basis after a reset
/// (which holds the copied state `phi_0`), and its result lands in B, the
/// current basis.
pub proof fn lemma_generator_reads_current_basis(max_order: int, n: int)
    requires
        2 <= n <= max_order,
    ensures
        propagation_commands(max_order)[4 + 2 * (n - 2)] == PropagationCommand::ApplyGenerator(
            current_slot_after_steps((n - 2) as nat),
        ),
        propagation_commands(max_order)[5 + 2 * (n - 2)] == PropagationCommand::RecurrenceStep(n as usize),
        propagation_commands(max_order)[1] == PropagationCommand::ApplyGenerator(current_slot_after_steps(0).other()),
        propagation_commands(max_order).len() == 2 * max_order + 3,
    decreases n,
{
    let i = 2 * (n - 2);
    assert(i / 2 == n - 2);
    assert(i % 2 == 0);
    assert((i + 1) / 2 == n - 2);
    assert((i + 1) % 2 == 1);
    if n > 2 {
        lemma_generator_reads_current_basis(max_order, n - 1);
    }
}

/// What the basis buffers hold while a propagation step runs, in terms of
/// the Chebyshev vectors `phi_k` (`phi_0 = psi`, `phi_1 = K psi / s`,
/// `phi_{k+1} = 2 K phi_k / s + phi_{k-1}`): buffer A holds `phi_a`, buffer
/// B holds `phi_b`, the generator scratch buffer holds `K phi_scratch / s`,
/// and `current` is the recurrence's current basis. The accumulator holds the
/// partial Chebyshev sum `sum_{j <= accumulated} c_j phi_j`, and the state
/// buffer holds the input wave `psi` while `state == -1`, and the partial sum
/// through order `state` once a result has been stored.
pub struct BasisContents {
    pub a: int,
    pub b: int,
    pub scratch: int,
    pub current: BasisSlot,
    pub accumulated: int,
    pub state: int,
}

impl BasisContents {
    /// Index of the Chebyshev vector held by `slot`.
    pub open spec fn holds(self, slot: BasisSlot) -> int {
        match slot {
            BasisSlot::A => self.a,
            BasisSlot::B => self.b,
        }
    }

    /// The same contents with `slot` now holding `phi_k`.
    pub open spec fn with(self, slot: BasisSlot, k: int) -> BasisContents {
        match slot {
            BasisSlot::A => BasisContents { a: k, ..self },
            BasisSlot::B => BasisContents { b: k, ..self },
        }
    }
}

/// Effect of one command on the basis buffers, or `None` when the command
/// would read buffers that do not hold the vectors its kernel needs. The
/// recurrence kernel of order `n` reads `K phi_{n-1} / s` from the scratch
/// buffer and `phi_{n-2}` from the previous basis, overwrites the previous
/// basis with `phi_n` (its read-write binding), and the roles then swap as
/// `ChebyshevRecurrencePlan::record_step` states. The accumulator
/// initialization reads `phi_0` from the previous and `phi_1` from the
/// current basis and starts the sum with the orders 0 and 1; each
/// recurrence step adds its order to the sum; the state is loaded only while
/// it still holds the input wave, and the result store copies the sum into
/// the state buffer.
pub open spec fn execute_command(s: BasisContents, command: PropagationCommand) -> Option<BasisContents> {
    match command {
        PropagationCommand::CopyStateToPreviousBasis => if s.state == -1 {
            Some(s.with(s.current.other(), 0))
        } else {
            None
        },
        PropagationCommand::ApplyGenerator(slot) => Some(BasisContents { scratch: s.holds(slot), ..s }),
        PropagationCommand::CopyScratchToCurrentBasis => if s.scratch == 0 {
            Some(s.with(s.current, 1))
        } else {
            None
        },
        PropagationCommand::InitializeAccumulator => if s.holds(s.current.other()) == 0 && s.holds(s.current) == 1 {
            Some(BasisContents { accumulated: 1, ..s })
        } else {
            None
        },
        PropagationCommand::RecurrenceStep(order) => if s.scratch == order - 1 && s.holds(s.current) == order - 1
            && s.holds(s.current.other()) == order - 2 && s.accumulated == order - 1 {
            let written = s.with(s.current.other(), order as int);
            Some(BasisContents { current: s.current.other(), accumulated: order as int, ..written })
        } else {
            None
        },
        PropagationCommand::CopyAccumulatorToState => if s.accumulated >= 1 {
            Some(BasisContents { state: s.accumulated, ..s })
        } else {
            None
        },
    }
}

/// Runs a command sequence on the basis buffers.
pub open spec fn execute_commands(s: BasisContents, commands: Seq<PropagationCommand>) -> Option<BasisContents>
    decreases commands.len(),
{
    if commands.len() == 0 {
        Some(s)
    } else {
        match execute_command(s, commands[0]) {
            Some(t) => execute_commands(t, commands.drop_first()),
            None => None,
        }
    }
}

proof fn lemma_execute_commands_append(s: BasisContents, first: Seq<PropagationCommand>, second: Seq<PropagationCommand>)
    ensures
        execute_commands(s, first + second) == match execute_commands(s, first) {
            Some(t) => execute_commands(t, second),
            None => None,
        },
    decreases first.len(),
{
    if first.len() == 0 {
        assert(first + second =~= second);
    } else {
        assert((first + second).drop_first() =~= first.drop_first() + second);
        assert((first + second)[0] == first[0]);
        match execute_command(s, first[0]) {
            Some(t) => lemma_execute_commands_append(t, first.drop_first(), second),
            None => {},
        }
    }
}

proof fn lemma_recurrence_commands_extend(k: int)
    requires
        k >= 1,
    ensures
        recurrence_commands(k + 1) == recurrence_commands(k) + seq![
            PropagationCommand::ApplyGenerator(generator_slot_for_order(k + 1)),
            PropagationCommand::RecurrenceStep((k + 1) as usize),
        ],
{
    let longer = recurrence_commands(k + 1);
    let extended = recurrence_commands(k) + seq![
        PropagationCommand::ApplyGenerator(generator_slot_for_order(k + 1)),
        PropagationCommand::RecurrenceStep((k + 1) as usize),
    ];
    assert forall|i: int| 0 <= i < longer.len() implies longer[i] == extended[i] by {
        if i >= 2 * (k - 1) {
            assert(i == 2 * (k - 1) || i == 2 * (k - 1) + 1);
            if i == 2 * (k - 1) {
                assert(i / 2 == k - 1);
                assert(i % 2 == 0);
            } else {
                assert(i / 2 == k - 1);
                assert(i % 2 == 1);
            }
        }
    }
    assert(longer =~= extended);
}

proof fn lemma_slot_parity(steps: nat)
    ensures
        current_slot_after_steps(steps) == generator_slot_for_order(steps + 2int),
    decreases steps,
{
    if steps > 0 {
        lemma_slot_parity((steps - 1) as nat);
    }
}

/// Runs a single command followed by more commands.
proof fn lemma_execute_commands_cons(s: BasisContents, commands: Seq<PropagationCommand>)
    requires
        commands.len() >= 1,
    ensures
        execute_commands(s, commands) == match execute_command(s, commands[0]) {
            Some(t) => execute_commands(t, commands.drop_first()),
            None => None,
        },
{
}

/// After the load, `phi_1` and every recurrence pair up to order `k`, the
/// current basis holds `phi_k` and the previous one `phi_{k-1}`.
proof fn lemma_recurrence_prefix(start: BasisContents, k: int)
    requires
        1 <= k <= usize::MAX,
        start.current == BasisSlot::B,
        start.state == -1,
    ensures
        ({
            let head = seq![
                PropagationCommand::CopyStateToPreviousBasis,
                PropagationCommand::ApplyGenerator(BasisSlot::A),
                PropagationCommand::CopyScratchToCurrentBasis,
                PropagationCommand::InitializeAccumulator,
            ];
            execute_commands(start, head + recurrence_commands(k)) matches Some(t)
                && t.holds(t.current) == k
                && t.holds(t.current.other()) == k - 1
                && t.current == current_slot_after_steps((k - 1) as nat)
                && t.accumulated == k
                && t.state == -1
        }),
    decreases k,
{
    let head = seq![
        PropagationCommand::CopyStateToPreviousBasis,
        PropagationCommand::ApplyGenerator(BasisSlot::A),
        PropagationCommand::CopyScratchToCurrentBasis,
        PropagationCommand::InitializeAccumulator,
    ];
    if k == 1 {
        assert(recurrence_commands(1) =~= Seq::<PropagationCommand>::empty());
        assert(head + recurrence_commands(1) =~= head);
        let h1 = head.drop_first();
        let h2 = h1.drop_first();
        let h3 = h2.drop_first();
        let h4 = h3.drop_first();
        assert(h1 =~= seq![
            PropagationCommand::ApplyGenerator(BasisSlot::A),
            PropagationCommand::CopyScratchToCurrentBasis,
            PropagationCommand::InitializeAccumulator,
        ]);
        assert(h2 =~= seq![
            PropagationCommand::CopyScratchToCurrentBasis,
            PropagationCommand::InitializeAccumulator,
        ]);
        assert(h3 =~= seq![PropagationCommand::InitializeAccumulator]);
        assert(h4 =~= Seq::<PropagationCommand>::empty());
        let s1 = start.with(BasisSlot::A, 0);
        let s2 = BasisContents { scratch: 0, ..s1 };
        let s3 = s2.with(BasisSlot::B, 1);
        let s4 = BasisContents { accumulated: 1, ..s3 };
        assert(execute_command(start, head[0]) == Some(s1));
        assert(execute_command(s1, h1[0]) == Some(s2));
        assert(execute_command(s2, h2[0]) == Some(s3));
        assert(execute_command(s3, h3[0]) == Some(s4));
        lemma_execute_commands_cons(start, head);
        lemma_execute_commands_cons(s1, h1);
        lemma_execute_commands_cons(s2, h2);
        lemma_execute_commands_cons(s3, h3);
        assert(execute_commands(s4, h4) == Some(s4));
        assert(execute_commands(start, head) == Some(s4));
    } else {
        lemma_recurrence_prefix(start, k - 1);
        lemma_recurrence_commands_extend(k - 1);
        let cur = generator_slot_for_order(k);
        let step = PropagationCommand::RecurrenceStep(k as usize);
        let pair = seq![PropagationCommand::ApplyGenerator(cur), step];
        assert(head + recurrence_commands(k) =~= (head + recurrence_commands(k - 1)) + pair);
        lemma_execute_commands_append(start, head + recurrence_commands(k - 1), pair);
        let t = execute_commands(start, head + recurrence_commands(k - 1))->0;
        lemma_slot_parity((k - 2) as nat);
        assert(t.current == cur);
        let t2 = BasisContents { scratch: t.holds(cur), ..t };
        assert(execute_command(t, pair[0]) == Some(t2));
        assert((k as usize) as int == k);
        let written = t2.with(cur.other(), k);
        let t3 = BasisContents { current: cur.other(), accumulated: k, ..written };
        assert(execute_command(t2, pair[1]) == Some(t3));
        assert(pair.drop_first() =~= seq![step]);
        assert(seq![step].drop_first() =~= Seq::<PropagationCommand>::empty());
        lemma_execute_commands_cons(t, pair);
        lemma_execute_commands_cons(t2, pair.drop_first());
        assert(execute_commands(t3, Seq::<PropagationCommand>::empty()) == Some(t3));
        assert(execute_commands(t, pair) == Some(t3));
        assert(current_slot_after_steps((k - 1) as nat) == current_slot_after_steps((k - 2) as nat).other());
    }
}

/// The ping-pong schedule realizes the Chebyshev three-term recurrence:
/// run from a reset recurrence (current basis B), the commands of a
/// propagation step of order `max_order` never make a kernel read a buffer
/// that does not hold the vector it needs. The accumulator starts from
/// `phi_0` and `phi_1`, each recurrence step of order `n` sees `phi_{n-1}`
/// through the generator and `phi_{n-2}` as its previous basis and adds its
/// order to the accumulated sum. At the end the current basis holds the
/// highest vector `phi_{max(max_order, 1)}`, and the state buffer, which held
/// the input wave, holds the whole Chebyshev sum through that order: the
/// propagated state.
pub proof fn lemma_propagation_realizes_recurrence(start: BasisContents, max_order: int)
    requires
        0 <= max_order <= usize::MAX,
        start.current == BasisSlot::B,
        start.state == -1,
    ensures
        execute_commands(start, propagation_commands(max_order)) matches Some(t)
            && t.holds(t.current) == if max_order >= 1 { max_order } else { 1 }
            && t.accumulated == if max_order >= 1 { max_order } else { 1 }
            && t.state == if max_order >= 1 { max_order } else { 1 },
{
    let top = if max_order >= 1 { max_order } else { 1 };
    let head = seq![
        PropagationCommand::CopyStateToPreviousBasis,
        PropagationCommand::ApplyGenerator(BasisSlot::A),
        PropagationCommand::CopyScratchToCurrentBasis,
        PropagationCommand::InitializeAccumulator,
    ];
    let tail = seq![PropagationCommand::CopyAccumulatorToState];
    assert(recurrence_commands(max_order) =~= recurrence_commands(top));
    lemma_recurrence_prefix(start, top);
    assert(propagation_commands(max_order) =~= (head + recurrence_commands(top)) + tail);
    lemma_execute_commands_append(start, head + recurrence_commands(top), tail);
    let t = execute_commands(start, head + recurrence_commands(top))->0;
    assert(tail.drop_first() =~= Seq::<PropagationCommand>::empty());
    lemma_execute_commands_cons(t, tail);
    let stored = BasisContents { state: t.accumulated, ..t };
    assert(execute_command(t, tail[0]) == Some(stored));
    assert(execute_commands(stored, Seq::<PropagationCommand>::empty()) == Some(stored));
}

/// The 16-byte uniform block of the accumulator initialization kernel: the
/// point count, the `f32` bit patterns of the order-0 coefficient and of the
/// order-1 coefficient (zero, the pattern of `0.0`, when the table has only
/// one), and a padding word, each little-endian.
pub fn create_initialization_parameter_bytes(point_count: u32, coefficient_bits: &[u32]) -> (bytes: Vec<u8>)
    requires
        coefficient_bits@.len() >= 1,
    ensures
        bytes@ == words_le_bytes(
            seq![
                point_count,
                coefficient_bits@[0],
                if coefficient_bits@.len() > 1 { coefficient_bits@[1] } else { 0u32 },
                0u32,
            ],
        ),
        bytes@.len() == 16,
        le_word_at(bytes@, 0) == point_count,
        le_word_at(bytes@, 1) == coefficient_bits@[0],
        le_word_at(bytes@, 2) == if coefficient_bits@.len() > 1 { coefficient_bits@[1] } else { 0u32 },
        le_word_at(bytes@, 3) == 0,
{
    let coefficient_zero = coefficient_bits[0];
    let coefficient_one = if coefficient_bits.len() > 1 { coefficient_bits[1] } else { 0 };
    let words: [u32; 4] = [point_count, coefficient_zero, coefficient_one, 0];
    let bytes = encode_words_le(&words);
    assert(words@ =~= seq![point_count, coefficient_bits@[0], if coefficient_bits@.len() > 1 { coefficient_bits@[1] } else { 0u32 }, 0u32]);
    proof {
        lemma_words_le_bytes_layout(words@, 0);
        lemma_words_le_bytes_layout(words@, 1);
        lemma_words_le_bytes_layout(words@, 2);
        lemma_words_le_bytes_layout(words@, 3);
    }
    bytes
}

} // verus!
