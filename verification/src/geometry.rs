//! The static quad geometry shared by every sprite instance.
//!
//! One rectangle is kept as four corner vertices in the unit square and six
//! triangle indices.  It is created once and never mutated; per-instance
//! placement is applied by the vertex stage from the instance attributes,
//! not by duplicating geometry.

use vstd::prelude::*;

verus! {

/// One corner of the shared quad, a point of the unit square.
///
/// Both coordinates are `0` or `1`; the vertex stage scales them by the
/// instance's size and offsets them by the instance's position.
#[derive(Clone, Copy, Debug, PartialEq, Eq, Structural)]
pub struct QuadCorner {
    /// Horizontal coordinate, `0` or `1`.
    pub corner_x_zero_to_one: u8,
    /// Vertical coordinate, `0` or `1`.
    pub corner_y_zero_to_one: u8,
}

impl QuadCorner {
    /// Both coordinates lie in the unit square.
    pub open spec fn wf(&self) -> bool {
        self.corner_x_zero_to_one <= 1 && self.corner_y_zero_to_one <= 1
    }
}

/// The four corners of the quad, in winding order.
pub open spec fn quad_corners_spec() -> Seq<QuadCorner> {
    seq![
        QuadCorner { corner_x_zero_to_one: 0, corner_y_zero_to_one: 0 },
        QuadCorner { corner_x_zero_to_one: 0, corner_y_zero_to_one: 1 },
        QuadCorner { corner_x_zero_to_one: 1, corner_y_zero_to_one: 1 },
        QuadCorner { corner_x_zero_to_one: 1, corner_y_zero_to_one: 0 },
    ]
}

/// The six indices that cut the quad into two triangles.
pub open spec fn quad_indices_spec() -> Seq<u16> {
    seq![0u16, 1u16, 2u16, 2u16, 3u16, 0u16]
}

/// The immutable vertex and index buffers of the shared quad.
pub struct GeometryTemplate {
    corners: Vec<QuadCorner>,
    indices: Vec<u16>,
}

impl GeometryTemplate {
    /// The corner vertices this template holds.
    pub closed spec fn corners_seq(&self) -> Seq<QuadCorner> {
        self.corners@
    }

    /// The triangle indices this template holds.
    pub closed spec fn indices_seq(&self) -> Seq<u16> {
        self.indices@
    }

    /// The template holds exactly the four unit-square corners and the six
    /// indices of the two triangles.
    pub open spec fn wf(&self) -> bool {
        self.corners_seq() == quad_corners_spec() && self.indices_seq() == quad_indices_spec()
    }

    /// Build the quad once, at setup.
    pub fn new() -> (g: Self)
        ensures
            g.wf(),
    {
        let mut corners: Vec<QuadCorner> = Vec::new();
        corners.push(QuadCorner { corner_x_zero_to_one: 0, corner_y_zero_to_one: 0 });
        corners.push(QuadCorner { corner_x_zero_to_one: 0, corner_y_zero_to_one: 1 });
        corners.push(QuadCorner { corner_x_zero_to_one: 1, corner_y_zero_to_one: 1 });
        corners.push(QuadCorner { corner_x_zero_to_one: 1, corner_y_zero_to_one: 0 });
        let mut indices: Vec<u16> = Vec::new();
        indices.push(0);
        indices.push(1);
        indices.push(2);
        indices.push(2);
        indices.push(3);
        indices.push(0);
        proof {
            assert(corners@ =~= quad_corners_spec());
            assert(indices@ =~= quad_indices_spec());
        }
        GeometryTemplate { corners, indices }
    }

    /// The corner vertices, for upload into the shared vertex buffer.
    pub fn corners(&self) -> (r: &Vec<QuadCorner>)
        ensures
            r@ == self.corners_seq(),
    {
        &self.corners
    }

    /// The triangle indices, for upload into the shared index buffer.
    pub fn indices(&self) -> (r: &Vec<u16>)
        ensures
            r@ == self.indices_seq(),
    {
        &self.indices
    }

    /// How many indices one instance of the quad draws.
    pub fn index_count(&self) -> (n: usize)
        requires
            self.wf(),
        ensures
            n == self.indices_seq().len(),
            n == 6,
    {
        self.indices.len()
    }
}

/// Every index of the template points at one of its four corners, so the
/// index buffer never reads outside the vertex buffer.
pub proof fn lemma_indices_in_range(g: GeometryTemplate)
    requires
        g.wf(),
    ensures
        forall|i: int|
            0 <= i < g.indices_seq().len() ==> g.indices_seq()[i] < g.corners_seq().len(),
{
}

} // verus!
