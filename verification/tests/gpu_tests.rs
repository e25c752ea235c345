use majorana_wave_simulator::browser_canvas_recorder::{choose_webm_mime_type, verify_canvas_dimensions, CanvasDimensionMismatch};
use majorana_wave_simulator::browser_startup::{webgpu_device_failure_message, webgpu_unavailable_message};
use majorana_wave_simulator::gpu::chebyshev_propagator_1d::{
    create_initialization_parameter_bytes, propagation_step_commands, PropagationCommand,
    PropagationCommand as P,
};
use majorana_wave_simulator::gpu::chebyshev_recurrence::{
    create_step_parameter_bytes, BasisSlot, ChebyshevRecurrencePlan, RecurrenceDispatch,
};
use majorana_wave_simulator::gpu::development_cube::mouse_drag_rotation::MouseDragTracker;
use majorana_wave_simulator::gpu::dispatch::{
    batched_point_count, field_buffer_size, mass_profile_buffer_size, parameter_stride, workgroup_count,
};
use majorana_wave_simulator::gpu::parameter_bytes::encode_words_le;
use majorana_wave_simulator::gpu::scaled_dirac_generator_1d::create_parameter_bytes;

#[test]
fn workgroups_cover_every_point() {
    assert_eq!(workgroup_count(0), 0);
    assert_eq!(workgroup_count(1), 1);
    assert_eq!(workgroup_count(64), 1);
    assert_eq!(workgroup_count(65), 2);
    assert_eq!(workgroup_count(4096), 64);
    assert_eq!(workgroup_count(u32::MAX), u32::MAX.div_ceil(64));
}

#[test]
fn buffers_use_sixteen_bytes_per_site() {
    assert_eq!(field_buffer_size(1), 16);
    assert_eq!(field_buffer_size(4096), 65536);
    assert_eq!(field_buffer_size(u32::MAX), 16 * u32::MAX as u64);
    assert_eq!(mass_profile_buffer_size(16), 64);
}

#[test]
fn batched_lines_multiply_or_overflow() {
    assert_eq!(batched_point_count(16, 256), Some(4096));
    assert_eq!(batched_point_count(u32::MAX, 2), None);
    assert_eq!(batched_point_count(65536, 65536), None);
}

#[test]
fn parameter_stride_respects_alignment() {
    assert_eq!(parameter_stride(256), 256);
    assert_eq!(parameter_stride(4), 16);
    assert_eq!(parameter_stride(16), 16);
}

#[test]
fn words_are_written_little_endian() {
    assert_eq!(encode_words_le(&[0x0403_0201, 0xdead_beef]), vec![1, 2, 3, 4, 0xef, 0xbe, 0xad, 0xde]);
    assert_eq!(encode_words_le(&[]), Vec::<u8>::new());
}

#[test]
fn generator_parameters_follow_the_uniform_layout() {
    let bytes = create_parameter_bytes(16, 1.0f32.to_bits(), 0.5f32.to_bits());
    let mut expected = Vec::new();
    expected.extend_from_slice(&16u32.to_le_bytes());
    expected.extend_from_slice(&1.0f32.to_le_bytes());
    expected.extend_from_slice(&0.5f32.to_le_bytes());
    expected.extend_from_slice(&0u32.to_le_bytes());
    assert_eq!(bytes, expected);
}

#[test]
fn initialization_parameters_default_the_second_coefficient_to_zero() {
    let one = create_initialization_parameter_bytes(7, &[0.25f32.to_bits()]);
    let mut expected = Vec::new();
    expected.extend_from_slice(&7u32.to_le_bytes());
    expected.extend_from_slice(&0.25f32.to_le_bytes());
    expected.extend_from_slice(&0.0f32.to_le_bytes());
    expected.extend_from_slice(&0u32.to_le_bytes());
    assert_eq!(one, expected);

    let two = create_initialization_parameter_bytes(7, &[0.25f32.to_bits(), (-0.5f32).to_bits(), 9]);
    assert_eq!(&two[8..12], &(-0.5f32).to_le_bytes());
}

#[test]
fn step_parameters_place_one_block_per_stride() {
    let coefficients = [1.5f32.to_bits(), (-2.0f32).to_bits(), 3.0f32.to_bits()];
    let bytes = create_step_parameter_bytes(4096, &coefficients, 256);
    assert_eq!(bytes.len(), 768);
    for (order, bits) in coefficients.iter().enumerate() {
        let start = order * 256;
        assert_eq!(&bytes[start..start + 4], &bits.to_le_bytes());
        assert_eq!(&bytes[start + 4..start + 8], &4096u32.to_le_bytes());
        assert!(bytes[start + 8..start + 256].iter().all(|b| *b == 0));
    }
    assert_eq!(create_step_parameter_bytes(4096, &[], 256), Vec::<u8>::new());
}

#[test]
fn recurrence_alternates_basis_roles() {
    let mut plan = ChebyshevRecurrencePlan::new(4096, 3, 256);
    assert_eq!(plan.previous_basis(), BasisSlot::A);
    assert_eq!(plan.current_basis(), BasisSlot::B);
    assert_eq!(
        plan.record_step(1),
        Some(RecurrenceDispatch { previous: BasisSlot::A, dynamic_offset: 256, workgroup_count: 64 })
    );
    assert_eq!(plan.current_basis(), BasisSlot::A);
    assert_eq!(
        plan.record_step(2),
        Some(RecurrenceDispatch { previous: BasisSlot::B, dynamic_offset: 512, workgroup_count: 64 })
    );
    assert_eq!(plan.current_basis(), BasisSlot::B);
    plan.record_step(0);
    plan.reset_basis_roles();
    assert_eq!(plan.previous_basis(), BasisSlot::A);
    assert_eq!(plan.current_basis(), BasisSlot::B);
}

#[test]
fn recurrence_refuses_offsets_beyond_u32() {
    let mut plan = ChebyshevRecurrencePlan::new(10, 4, 0x8000_0000);
    assert_eq!(plan.record_step(2), None);
    assert_eq!(plan.current_basis(), BasisSlot::B);
    assert!(plan.record_step(1).is_some());
}

#[test]
fn propagation_commands_pair_generator_and_recurrence() {
    assert_eq!(
        propagation_step_commands(1),
        vec![
            P::CopyStateToPreviousBasis,
            P::ApplyGenerator(BasisSlot::A),
            P::CopyScratchToCurrentBasis,
            P::InitializeAccumulator,
            P::CopyAccumulatorToState
        ]
    );
    assert_eq!(
        propagation_step_commands(4),
        vec![
            P::CopyStateToPreviousBasis,
            P::ApplyGenerator(BasisSlot::A),
            P::CopyScratchToCurrentBasis,
            P::InitializeAccumulator,
            P::ApplyGenerator(BasisSlot::B),
            P::RecurrenceStep(2),
            P::ApplyGenerator(BasisSlot::A),
            P::RecurrenceStep(3),
            P::ApplyGenerator(BasisSlot::B),
            P::RecurrenceStep(4),
            P::CopyAccumulatorToState
        ]
    );
}

#[test]
fn generator_always_reads_the_recurrence_current_basis() {
    let commands = propagation_step_commands(9);
    let mut plan = ChebyshevRecurrencePlan::new(16, 10, 16);
    plan.reset_basis_roles();
    let mut last_generator_slot = None;
    for command in commands {
        match command {
            PropagationCommand::ApplyGenerator(slot) => last_generator_slot = Some(slot),
            PropagationCommand::RecurrenceStep(order) => {
                assert_eq!(last_generator_slot, Some(plan.current_basis()));
                plan.record_step(order).unwrap();
            }
            _ => {}
        }
    }
}

#[test]
fn propagation_step_feeds_every_kernel_its_chebyshev_vectors() {
    for max_order in 0..8usize {
        let mut plan = ChebyshevRecurrencePlan::new(32, max_order + 1, 256);
        plan.reset_basis_roles();
        // Index k of the vector phi_k held by buffers A and B and by the
        // generator scratch buffer; -1 for "nothing yet".
        let mut held = [-1i64, -1i64];
        let mut scratch = -1i64;
        let index = |slot: BasisSlot| if slot == BasisSlot::A { 0usize } else { 1usize };
        for command in propagation_step_commands(max_order) {
            let current = index(plan.current_basis());
            let previous = index(plan.previous_basis());
            match command {
                PropagationCommand::CopyStateToPreviousBasis => held[previous] = 0,
                PropagationCommand::ApplyGenerator(slot) => scratch = held[index(slot)],
                PropagationCommand::CopyScratchToCurrentBasis => {
                    assert_eq!(scratch, 0);
                    held[current] = 1;
                }
                PropagationCommand::InitializeAccumulator => {
                    assert_eq!((held[previous], held[current]), (0, 1));
                }
                PropagationCommand::RecurrenceStep(order) => {
                    let n = order as i64;
                    assert_eq!((scratch, held[current], held[previous]), (n - 1, n - 1, n - 2));
                    held[previous] = n;
                    plan.record_step(order).unwrap();
                }
                PropagationCommand::CopyAccumulatorToState => {}
            }
        }
        let top = if max_order >= 1 { max_order as i64 } else { 1 };
        assert_eq!(held[index(plan.current_basis())], top);
    }
}

#[test]
fn drag_tracker_reports_moves_only_while_dragging() {
    let mut tracker = MouseDragTracker::new();
    assert_eq!(tracker.drag_to(10, 10), None);
    tracker.start_drag(100, 50);
    assert!(tracker.dragging());
    assert_eq!(tracker.drag_to(110, 45), Some((10, -5)));
    assert_eq!(tracker.drag_to(105, 45), Some((-5, 0)));
    assert_eq!(tracker.last_position(), (105, 45));
    tracker.stop_drag();
    assert_eq!(tracker.drag_to(0, 0), None);
    assert_eq!(tracker.last_position(), (105, 45));
}

#[test]
fn recorder_requires_a_square_canvas_of_recording_size() {
    assert_eq!(verify_canvas_dimensions(640, 640), Ok(()));
    assert_eq!(verify_canvas_dimensions(800, 640), Err(CanvasDimensionMismatch { width: 800, height: 640 }));
    assert_eq!(verify_canvas_dimensions(640, 480), Err(CanvasDimensionMismatch { width: 640, height: 480 }));
}

#[test]
fn recorder_prefers_the_best_supported_webm() {
    assert_eq!(choose_webm_mime_type(&[true, true, true]), Some("video/webm;codecs=vp9"));
    assert_eq!(choose_webm_mime_type(&[false, true, true]), Some("video/webm;codecs=vp8"));
    assert_eq!(choose_webm_mime_type(&[false, false, true]), Some("video/webm"));
    assert_eq!(choose_webm_mime_type(&[false, false, false]), None);
}

#[test]
fn startup_messages_explain_the_failure() {
    let real = webgpu_unavailable_message(false);
    assert!(real.starts_with("WebGPU unavailable\n\n"));
    assert!(real.ends_with("does not expose WebGPU."));
    let simulated = webgpu_unavailable_message(true);
    assert_eq!(simulated, format!("{real}\n\nDevelopment test: simulated WebGPU failure."));
    let device = webgpu_device_failure_message("lost");
    assert!(device.starts_with("WebGPU device creation failed\n\n"));
    assert!(device.ends_with("Technical detail: lost"));
}
