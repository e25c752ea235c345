use majorana_wave_simulator::spatial_majorana_field::{grid_coordinates, SpatialMajoranaField};
use majorana_wave_simulator::simulation_clock::FramePhysicsSchedule;
use majorana_wave_simulator::mass_boundary_control::MassBoundaryControl;
use majorana_wave_simulator::runtime_diagnostics::RuntimeDiagnosticsCounters;
use majorana_wave_simulator::webgpu_compatibility::should_simulate_webgpu_unavailable;

#[test]
fn query_flag_is_recognised_among_parameters() {
    assert!(should_simulate_webgpu_unavailable("?simulate_webgpu_unavailable=1"));
    assert!(should_simulate_webgpu_unavailable("?debug=1&simulate_webgpu_unavailable=1"));
    assert!(should_simulate_webgpu_unavailable("?simulate_webgpu_unavailable=1&debug=1"));
    assert!(should_simulate_webgpu_unavailable("??simulate_webgpu_unavailable=1"));
    assert!(should_simulate_webgpu_unavailable("simulate_webgpu_unavailable=1"));
    assert!(should_simulate_webgpu_unavailable("&simulate_webgpu_unavailable=1"));
}

#[test]
fn query_flag_needs_the_exact_parameter() {
    assert!(!should_simulate_webgpu_unavailable(""));
    assert!(!should_simulate_webgpu_unavailable("?"));
    assert!(!should_simulate_webgpu_unavailable("?simulate_webgpu_unavailable=0"));
    assert!(!should_simulate_webgpu_unavailable("?simulate_webgpu_unavailable=10"));
    assert!(!should_simulate_webgpu_unavailable("?xsimulate_webgpu_unavailable=1"));
    assert!(!should_simulate_webgpu_unavailable("?a=1?simulate_webgpu_unavailable=1"));
}

#[test]
fn field_is_indexed_x_fastest() {
    let points: Vec<usize> = (0..27).collect();
    let field = SpatialMajoranaField::from_points(3, points).unwrap();
    assert_eq!(field.len(), 27);
    assert_eq!(field.side_length(), 3);
    assert_eq!(*field.components_at(0, 0, 0), 0);
    assert_eq!(*field.components_at(1, 0, 0), 1);
    assert_eq!(*field.components_at(0, 1, 0), 3);
    assert_eq!(*field.components_at(2, 1, 1), 14);
    assert_eq!(*field.components_at(2, 2, 2), 26);
}

#[test]
fn field_rejects_a_wrong_point_count() {
    assert!(SpatialMajoranaField::from_points(2, vec![[0.0f32; 4]; 7]).is_none());
    assert!(SpatialMajoranaField::from_points(2, vec![[0.0f32; 4]; 8]).is_some());
    assert!(SpatialMajoranaField::from_points(0, Vec::<u8>::new()).is_some());
    assert!(SpatialMajoranaField::from_points(usize::MAX, Vec::<u8>::new()).is_none());
}

#[test]
fn grid_coordinates_invert_the_storage_order() {
    assert_eq!(grid_coordinates(3, 14), (2, 1, 1));
    for side in 1..6usize {
        let mut index = 0;
        for z in 0..side {
            for y in 0..side {
                for x in 0..side {
                    assert_eq!(grid_coordinates(side, index), (x, y, z));
                    index += 1;
                }
            }
        }
    }
}

#[test]
fn frame_schedule_caps_steps_and_drops_the_rest() {
    assert_eq!(
        FramePhysicsSchedule::from_due_steps(7, 4),
        FramePhysicsSchedule { steps_to_run: 4, dropped_steps: 3 }
    );
    assert_eq!(
        FramePhysicsSchedule::from_due_steps(2, 4),
        FramePhysicsSchedule { steps_to_run: 2, dropped_steps: 0 }
    );
    assert_eq!(
        FramePhysicsSchedule::from_due_steps(4, 4),
        FramePhysicsSchedule { steps_to_run: 4, dropped_steps: 0 }
    );
    assert_eq!(FramePhysicsSchedule::idle(), FramePhysicsSchedule { steps_to_run: 0, dropped_steps: 0 });
}

#[test]
fn mass_boundary_is_clamped_to_the_grid() {
    let mut control = MassBoundaryControl::new(15, 8);
    assert_eq!(control.boundary_index(), 8);
    assert_eq!(control.maximum_boundary_index(), 15);
    assert_eq!(control.request_boundary(-3), 0);
    assert_eq!(control.boundary_index(), 0);
    assert_eq!(control.request_boundary(40), 15);
    assert_eq!(control.request_boundary(7), 7);
    assert_eq!(control.boundary_index(), 7);
    assert_eq!(control.request_boundary(i64::MAX), 15);
}

#[test]
fn diagnostics_counters_accumulate_and_reset() {
    let mut counters = RuntimeDiagnosticsCounters::new();
    counters.record_steps(4, 1);
    counters.record_steps(2, 0);
    counters.count_interval_frame();
    counters.count_interval_frame();
    assert_eq!(counters.total_physics_steps(), 6);
    assert_eq!(counters.total_dropped_steps(), 1);
    assert_eq!(counters.interval_frame_count(), 2);
    counters.reset_interval();
    assert_eq!(counters.interval_frame_count(), 0);
    assert_eq!(counters.total_physics_steps(), 6);
}
