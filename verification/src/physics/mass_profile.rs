use vstd::prelude::*;

verus! {

/// A one-dimensional mass step: positions before `boundary_index` carry
/// `left_mass`, the others `right_mass`.
pub fn create_mass_step_profile_1d<T: Copy>(
    point_count: usize,
    boundary_index: usize,
    left_mass: T,
    right_mass: T,
) -> (mass_profile: Vec<T>)
    requires
        boundary_index <= point_count,
    ensures
        mass_profile@.len() == point_count,
        forall|i: int| 0 <= i < point_count ==> #[trigger] mass_profile@[i] == if i < boundary_index {
            left_mass
        } else {
            right_mass
        },
{
    let mut mass_profile: Vec<T> = Vec::new();
    let mut spatial_index: usize = 0;
    while spatial_index < point_count
        invariant
            spatial_index <= point_count,
            mass_profile@.len() == spatial_index,
            forall|i: int| 0 <= i < spatial_index ==> #[trigger] mass_profile@[i] == if i < boundary_index {
                left_mass
            } else {
                right_mass
            },
        decreases point_count - spatial_index,
    {
        let mass = if spatial_index < boundary_index { left_mass } else { right_mass };
        mass_profile.push(mass);
        spatial_index = spatial_index + 1;
    }
    mass_profile
}

} // verus!
