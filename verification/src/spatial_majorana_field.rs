use vstd::prelude::*;
use vstd::arithmetic::div_mod::lemma_fundamental_div_mod_converse;

verus! {

/// Number of points of a cubic grid with `side` points per axis.
pub open spec fn grid_volume(side: int) -> int {
    side * side * side
}

/// Storage position of grid point `(x, y, z)`: x varies fastest, then y, then z.
pub open spec fn grid_index(side: int, x: int, y: int, z: int) -> int {
    x + side * (y + side * z)
}

/// Every in-range coordinate triple has a position inside the storage.
pub proof fn lemma_grid_index_in_range(side: int, x: int, y: int, z: int)
    requires
        0 <= x < side,
        0 <= y < side,
        0 <= z < side,
    ensures
        0 <= grid_index(side, x, y, z) < grid_volume(side),
{
    assert(0 <= y + side * z <= side * side - 1) by (nonlinear_arith)
        requires
            0 <= y < side,
            0 <= z < side,
    ;
    assert(0 <= x + side * (y + side * z) <= side * side * side - 1) by (nonlinear_arith)
        requires
            0 <= x < side,
            0 <= y + side * z <= side * side - 1,
    ;
}

/// The storage order: the first point sits at position 0, and a step of one
/// point along x, y or z moves `1`, `side` or `side * side` positions.
pub proof fn lemma_grid_index_strides(side: int, x: int, y: int, z: int)
    ensures
        grid_index(side, 0, 0, 0) == 0,
        grid_index(side, x + 1, y, z) == grid_index(side, x, y, z) + 1,
        grid_index(side, x, y + 1, z) == grid_index(side, x, y, z) + side,
        grid_index(side, x, y, z + 1) == grid_index(side, x, y, z) + side * side,
{
    assert(side * (y + 1 + side * z) == side * (y + side * z) + side) by (nonlinear_arith);
    assert(side * (y + side * (z + 1)) == side * (y + side * z) + side * side) by (nonlinear_arith);
    assert(side * (0 + side * 0) == 0) by (nonlinear_arith);
}

/// Different grid points have different storage positions.
pub proof fn lemma_grid_index_injective(side: int, x: int, y: int, z: int, x2: int, y2: int, z2: int)
    requires
        0 <= x < side,
        0 <= y < side,
        0 <= z < side,
        0 <= x2 < side,
        0 <= y2 < side,
        0 <= z2 < side,
        grid_index(side, x, y, z) == grid_index(side, x2, y2, z2),
    ensures
        x == x2,
        y == y2,
        z == z2,
{
    let index = grid_index(side, x, y, z);
    assert(index == (y + side * z) * side + x) by (nonlinear_arith)
        requires
            index == x + side * (y + side * z),
    ;
    assert(index == (y2 + side * z2) * side + x2) by (nonlinear_arith)
        requires
            index == x2 + side * (y2 + side * z2),
    ;
    assert(y + side * z == z * side + y) by (nonlinear_arith);
    assert(y2 + side * z2 == z2 * side + y2) by (nonlinear_arith);
    lemma_fundamental_div_mod_converse(index, side, y + side * z, x);
    lemma_fundamental_div_mod_converse(index, side, y2 + side * z2, x2);
    lemma_fundamental_div_mod_converse(y + side * z, side, z, y);
    lemma_fundamental_div_mod_converse(y2 + side * z2, side, z2, y2);
}

/// The grid point stored at position `index` of a cube with `side` points
/// per axis; the inverse of the storage order.
pub fn grid_coordinates(side: usize, index: usize) -> (xyz: (usize, usize, usize))
    requires
        0 < side,
        index < grid_volume(side as int),
    ensures
        xyz.0 < side,
        xyz.1 < side,
        xyz.2 < side,
        grid_index(side as int, xyz.0 as int, xyz.1 as int, xyz.2 as int) == index,
{
    let x = index % side;
    let rest = index / side;
    let y = rest % side;
    let z = rest / side;
    let ghost s = side as int;
    proof {
        assert(index as int == s * (rest as int) + (x as int)) by {
            vstd::arithmetic::div_mod::lemma_fundamental_div_mod(index as int, s);
        }
        assert(rest as int == s * (z as int) + (y as int)) by {
            vstd::arithmetic::div_mod::lemma_fundamental_div_mod(rest as int, s);
        }
        assert((rest as int) < s * s) by (nonlinear_arith)
            requires
                s > 0,
                s * (rest as int) <= index as int,
                (index as int) < s * s * s,
        ;
        assert((z as int) < s) by (nonlinear_arith)
            requires
                s > 0,
                s * (z as int) <= rest as int,
                (rest as int) < s * s,
        ;
        assert(grid_index(s, x as int, y as int, z as int) == index as int) by (nonlinear_arith)
            requires
                index as int == s * (rest as int) + (x as int),
                rest as int == s * (z as int) + (y as int),
        ;
    }
    (x, y, z)
}

/// One four-component Majorana state (any point type `P`) at every point of a
/// cubic spatial grid, stored with x varying fastest, then y, then z.
pub struct SpatialMajoranaField<P> {
    side_length: usize,
    points: Vec<P>,
}

impl<P> SpatialMajoranaField<P> {
    #[verifier::type_invariant]
    spec fn inv(self) -> bool {
        self.points@.len() == grid_volume(self.side_length as int)
    }

    /// Grid points along each axis.
    pub closed spec fn side(self) -> nat {
        self.side_length as nat
    }

    /// The stored points, in storage order.
    pub closed spec fn point_seq(self) -> Seq<P> {
        self.points@
    }

    /// Builds a field from its points listed in storage order; `None` unless
    /// there is exactly one point per grid point.
    pub fn from_points(side_length: usize, points: Vec<P>) -> (field: Option<SpatialMajoranaField<P>>)
        ensures
            field is Some <==> points@.len() == grid_volume(side_length as int),
            field matches Some(f) ==> f.side() == side_length && f.point_seq() == points@,
    {
        let ghost s = side_length as int;
        let count = points.len();
        match side_length.checked_mul(side_length) {
            Some(square) => match square.checked_mul(side_length) {
                Some(volume) => {
                    assert(volume as int == grid_volume(s));
                    if count == volume {
                        Some(SpatialMajoranaField { side_length, points })
                    } else {
                        None
                    }
                },
                None => {
                    None
                },
            },
            None => {
                proof {
                    assert(s * s <= s * s * s) by (nonlinear_arith)
                        requires
                            s * s > 0,
                            s >= 0,
                    ;
                }
                None
            },
        }
    }

    /// Grid points along each axis.
    pub fn side_length(&self) -> (side: usize)
        ensures
            side == self.side(),
    {
        self.side_length
    }

    /// Total number of grid points, `side_length^3`.
    pub fn len(&self) -> (count: usize)
        ensures
            count == self.point_seq().len(),
            count == grid_volume(self.side() as int),
    {
        proof { use_type_invariant(self); }
        self.points.len()
    }

    /// All points in storage order.
    pub fn points(&self) -> (points: &Vec<P>)
        ensures
            points@ == self.point_seq(),
    {
        &self.points
    }

    /// The state at grid point `(x, y, z)`.
    pub fn components_at(&self, x: usize, y: usize, z: usize) -> (point: &P)
        requires
            x < self.side(),
            y < self.side(),
            z < self.side(),
        ensures
            0 <= grid_index(self.side() as int, x as int, y as int, z as int) < self.point_seq().len(),
            *point == self.point_seq()[grid_index(self.side() as int, x as int, y as int, z as int)],
    {
        let count = self.points.len();
        proof {
            use_type_invariant(self);
            lemma_grid_index_in_range(self.side_length as int, x as int, y as int, z as int);
            let s = self.side_length as int;
            assert(s * z <= y + s * z <= s * (y + s * z)) by (nonlinear_arith)
                requires
                    0 <= y < s,
                    0 <= z,
            ;
        }
        let index = x + self.side_length * (y + self.side_length * z);
        &self.points[index]
    }
}

} // verus!
