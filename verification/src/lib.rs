//! Verified core of the Majorana WebGPU wave simulator.
//!
//! The library holds the decisions and the exact (integer, index and
//! byte-layout) logic of the simulator; floating-point numerics, WebGPU
//! objects and the browser DOM live in the application around it.
pub mod webgpu_compatibility;
pub mod physics;
pub mod spatial_majorana_field;
pub mod simulation_clock;
pub mod mass_boundary_control;
pub mod gpu;
pub mod runtime_diagnostics;
pub mod browser_startup;
pub mod browser_canvas_recorder;
