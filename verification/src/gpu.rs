pub mod dispatch;
pub mod parameter_bytes;
pub mod scaled_dirac_generator_1d;
pub mod chebyshev_recurrence;
pub mod chebyshev_propagator_1d;
pub mod development_cube;
