use vstd::prelude::*;

verus! {

/// State of the interactive mass-boundary slider: the x index at which the
/// mass step sits, kept inside `0..=maximum_boundary_index`.
pub struct MassBoundaryControl {
    boundary_index: usize,
    maximum_boundary_index: usize,
}

impl MassBoundaryControl {
    #[verifier::type_invariant]
    spec fn inv(self) -> bool {
        self.boundary_index <= self.maximum_boundary_index
    }

    /// Current boundary index.
    pub closed spec fn boundary(self) -> nat {
        self.boundary_index as nat
    }

    /// Largest boundary index the slider allows.
    pub closed spec fn maximum(self) -> nat {
        self.maximum_boundary_index as nat
    }

    /// A control whose boundary starts at `initial_boundary_index`, which
    /// must lie inside the x-grid.
    pub fn new(maximum_boundary_index: usize, initial_boundary_index: usize) -> (control: MassBoundaryControl)
        requires
            initial_boundary_index <= maximum_boundary_index,
        ensures
            control.boundary() == initial_boundary_index,
            control.maximum() == maximum_boundary_index,
    {
        MassBoundaryControl { boundary_index: initial_boundary_index, maximum_boundary_index }
    }

    /// The boundary index the simulation should use now.
    pub fn boundary_index(&self) -> (index: usize)
        ensures
            index == self.boundary(),
            index <= self.maximum(),
    {
        proof { use_type_invariant(self); }
        self.boundary_index
    }

    /// The largest boundary index the slider allows.
    pub fn maximum_boundary_index(&self) -> (index: usize)
        ensures
            index == self.maximum(),
    {
        self.maximum_boundary_index
    }

    /// Handles a slider input: the slider's value, already rounded to the
    /// nearest whole number, is clamped into `0..=maximum` and becomes the new
    /// boundary, which is returned.
    pub fn request_boundary(&mut self, rounded_value: i64) -> (boundary: usize)
        ensures
            final(self).maximum() == old(self).maximum(),
            boundary == final(self).boundary(),
            rounded_value < 0 ==> boundary == 0,
            rounded_value > old(self).maximum() ==> boundary == old(self).maximum(),
            0 <= rounded_value <= old(self).maximum() ==> boundary == rounded_value,
    {
        let maximum = self.maximum_boundary_index;
        let boundary: usize = if rounded_value < 0 {
            0
        } else if rounded_value as u64 as u128 > maximum as u128 {
            maximum
        } else {
            rounded_value as usize
        };
        self.boundary_index = boundary;
        boundary
    }
}

} // verus!
