pub mod spinor_operator;
pub mod j;
pub mod dirac_basis;
pub mod momentum_grid;
pub mod spectral_bound;
pub mod spectral_derivative;
pub mod mass_profile;
pub mod dirac_generator;
