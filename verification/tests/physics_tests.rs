use majorana_wave_simulator::physics::dirac_basis::{apply_alpha_x, apply_alpha_y, apply_alpha_z, apply_minus_i_beta};
use majorana_wave_simulator::physics::j::apply_j;
use majorana_wave_simulator::physics::mass_profile::create_mass_step_profile_1d;
use majorana_wave_simulator::physics::momentum_grid::{create_mode_grid_1d, signed_mode_index};
use majorana_wave_simulator::physics::spectral_bound::maximum_active_mode_1d;
use majorana_wave_simulator::physics::spectral_derivative::is_nyquist_mode;
use majorana_wave_simulator::physics::spinor_operator::SpinorOperator;

fn negate(state: &[i64; 4]) -> [i64; 4] {
    [-state[0], -state[1], -state[2], -state[3]]
}

fn act(op: &SpinorOperator, state: &[i64; 4]) -> [i64; 4] {
    op.apply(state, &negate(state))
}

const SAMPLE: [i64; 4] = [3, -5, 7, 11];

#[test]
fn apply_j_moves_and_negates_components() {
    assert_eq!(apply_j(&[1, 2, 3, 4], &[-1, -2, -3, -4]), [2, -1, 4, -3]);
}

#[test]
fn apply_j_on_floats_matches_the_reference_layout() {
    let state = [1.0f32, 0.0, 0.0, 0.0];
    let negated = [-1.0f32, -0.0, -0.0, -0.0];
    assert_eq!(apply_j(&state, &negated), [0.0, -1.0, 0.0, -0.0]);
}

#[test]
fn j_squared_is_minus_identity() {
    let j = SpinorOperator::majorana_j();
    assert_eq!(act(&j, &act(&j, &SAMPLE)), negate(&SAMPLE));
}

#[test]
fn j_is_antisymmetric() {
    let j = SpinorOperator::majorana_j();
    let a = [1i64, 2, 3, 4];
    let b = [5i64, -6, 7, -8];
    let dot = |x: &[i64; 4], y: &[i64; 4]| x[0] * y[0] + x[1] * y[1] + x[2] * y[2] + x[3] * y[3];
    assert_eq!(dot(&a, &act(&j, &b)), -dot(&act(&j, &a), &b));
    assert_eq!(dot(&a, &act(&j, &a)), 0);
}

#[test]
fn alpha_matrices_match_the_majorana_basis() {
    assert_eq!(apply_alpha_x(&[1, 2, 3, 4]), [3, 4, 1, 2]);
    assert_eq!(apply_alpha_y(&[1, 2, 3, 4], &[-1, -2, -3, -4]), [-4, 3, 2, -1]);
    assert_eq!(apply_alpha_z(&[1, 2, 3, 4], &[-1, -2, -3, -4]), [1, 2, -3, -4]);
    assert_eq!(apply_minus_i_beta(&[1, 2, 3, 4], &[-1, -2, -3, -4]), [-3, 4, 1, -2]);
}

#[test]
fn j_commutes_with_every_alpha() {
    let j = SpinorOperator::majorana_j();
    for alpha in [SpinorOperator::alpha_x(), SpinorOperator::alpha_y(), SpinorOperator::alpha_z()] {
        assert_eq!(act(&j, &act(&alpha, &SAMPLE)), act(&alpha, &act(&j, &SAMPLE)));
    }
}

#[test]
fn j_anticommutes_with_beta() {
    let j = SpinorOperator::majorana_j();
    let beta = SpinorOperator::minus_i_beta();
    assert_eq!(act(&j, &act(&beta, &SAMPLE)), negate(&act(&beta, &act(&j, &SAMPLE))));
}

#[test]
fn alphas_square_to_identity_and_anticommute() {
    let alphas = [SpinorOperator::alpha_x(), SpinorOperator::alpha_y(), SpinorOperator::alpha_z()];
    for (i, a) in alphas.iter().enumerate() {
        assert_eq!(act(a, &act(a, &SAMPLE)), SAMPLE);
        for (k, b) in alphas.iter().enumerate() {
            if i != k {
                assert_eq!(act(a, &act(b, &SAMPLE)), negate(&act(b, &act(a, &SAMPLE))));
            }
        }
        let beta = SpinorOperator::minus_i_beta();
        assert_eq!(act(a, &act(&beta, &SAMPLE)), negate(&act(&beta, &act(a, &SAMPLE))));
    }
}

#[test]
fn minus_i_beta_squares_to_minus_identity_and_is_skew() {
    let beta = SpinorOperator::minus_i_beta();
    assert_eq!(act(&beta, &act(&beta, &SAMPLE)), negate(&SAMPLE));
    let w = act(&beta, &SAMPLE);
    assert_eq!(SAMPLE[0] * w[0] + SAMPLE[1] * w[1] + SAMPLE[2] * w[2] + SAMPLE[3] * w[3], 0);
}

#[test]
fn operators_preserve_the_norm() {
    let norm = |v: &[i64; 4]| v[0] * v[0] + v[1] * v[1] + v[2] * v[2] + v[3] * v[3];
    for op in [
        SpinorOperator::identity(),
        SpinorOperator::majorana_j(),
        SpinorOperator::alpha_x(),
        SpinorOperator::alpha_y(),
        SpinorOperator::alpha_z(),
        SpinorOperator::minus_i_beta(),
    ] {
        assert_eq!(norm(&act(&op, &SAMPLE)), norm(&SAMPLE));
    }
}

#[test]
fn negation_flips_every_sign() {
    let minus_alpha_x = SpinorOperator::alpha_x().negation();
    assert_eq!(act(&minus_alpha_x, &[1, 2, 3, 4]), [-3, -4, -1, -2]);
    assert_eq!(minus_alpha_x.source(0), 2);
    assert!(minus_alpha_x.negates(0));
}

#[test]
fn mode_grid_orders_modes_like_an_fft() {
    assert_eq!(create_mode_grid_1d(5), vec![0, 1, 2, -2, -1]);
    assert_eq!(create_mode_grid_1d(4), vec![0, 1, -2, -1]);
    assert_eq!(create_mode_grid_1d(1), vec![0]);
    assert_eq!(signed_mode_index(3, 4), -1);
}

#[test]
fn mode_grid_holds_each_residue_once() {
    for n in 1..20usize {
        let modes = create_mode_grid_1d(n);
        for (i, mode) in modes.iter().enumerate() {
            assert_eq!((*mode - i as isize).rem_euclid(n as isize), 0);
            assert!(*mode >= -((n / 2) as isize) && *mode <= ((n - 1) / 2) as isize);
        }
    }
}

#[test]
fn maximum_active_mode_covers_exactly_the_non_nyquist_modes() {
    assert_eq!(maximum_active_mode_1d(1), 0);
    assert_eq!(maximum_active_mode_1d(4), 1);
    assert_eq!(maximum_active_mode_1d(5), 2);
    assert_eq!(maximum_active_mode_1d(16), 7);
    for n in 1..20usize {
        let bound = maximum_active_mode_1d(n) as isize;
        let modes = create_mode_grid_1d(n);
        let mut largest = 0isize;
        for (i, mode) in modes.iter().enumerate() {
            if !is_nyquist_mode(i, n) {
                assert!(mode.abs() <= bound);
                largest = largest.max(mode.abs());
            }
        }
        assert_eq!(largest, bound);
    }
}

#[test]
fn nyquist_mode_exists_only_on_even_grids() {
    assert!(is_nyquist_mode(2, 4));
    assert!(!is_nyquist_mode(1, 4));
    assert!(!is_nyquist_mode(2, 5));
    assert!(is_nyquist_mode(8, 16));
}

#[test]
fn mass_step_profile_switches_at_the_boundary() {
    assert_eq!(create_mass_step_profile_1d(5, 2, -1.0f32, 1.0f32), vec![-1.0, -1.0, 1.0, 1.0, 1.0]);
    assert_eq!(create_mass_step_profile_1d(3, 0, -1.0f32, 1.0f32), vec![1.0, 1.0, 1.0]);
    assert_eq!(create_mass_step_profile_1d(3, 3, -1.0f32, 1.0f32), vec![-1.0, -1.0, -1.0]);
    assert_eq!(create_mass_step_profile_1d(0, 0, 2u8, 3u8), Vec::<u8>::new());
}

#[test]
fn generator_is_skew_for_an_antisymmetric_derivative() {
    // A small antisymmetric derivative matrix and an arbitrary mass profile.
    let derivative = [[0i64, 2, -1], [-2, 0, 3], [1, -3, 0]];
    let mass = [-1i64, 4, 2];
    let alpha_x = SpinorOperator::alpha_x();
    let beta = SpinorOperator::minus_i_beta();
    let entry = |op: &SpinorOperator, row: usize, col: usize| -> i64 {
        let mut unit = [0i64; 4];
        unit[col] = 1;
        act(op, &unit)[row]
    };
    let generator = |p: usize, a: usize, q: usize, b: usize| -> i64 {
        let kinetic = -derivative[p][q] * entry(&alpha_x, a, b);
        let local = if p == q { mass[p] * entry(&beta, a, b) } else { 0 };
        kinetic + local
    };
    for p in 0..3 {
        for q in 0..3 {
            for a in 0..4 {
                for b in 0..4 {
                    assert_eq!(generator(p, a, q, b), -generator(q, b, p, a));
                }
            }
        }
    }
}
