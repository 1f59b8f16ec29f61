//! The reference configuration: the values the renderer starts with.
//!
//! A 960x720 window and three sprite instances with hardcoded placements,
//! written into the staging buffer once at startup and never again.

use vstd::prelude::*;

use crate::NUM_IMAGE_INSTANCES;
use crate::instances::Instance;
use crate::instances::InstanceStore;
use crate::instances::PixelPair;
use crate::uniforms::WindowSizeUniform;

verus! {

/// The window dimensions the reference configuration asks for.
pub fn reference_window_size() -> (u: WindowSizeUniform)
    ensures
        u.wf(),
        u.width_in_pixels == 960,
        u.height_in_pixels == 720,
{
    WindowSizeUniform::new(960, 720)
}

/// The three reference placements, by instance index.
pub open spec fn reference_placements_spec() -> Seq<Instance> {
    seq![
        Instance {
            position_within_window_in_pixels: PixelPair { x: 0, y: 0 },
            size_in_pixels: PixelPair { x: 300, y: 300 },
        },
        Instance {
            position_within_window_in_pixels: PixelPair { x: 300, y: 500 },
            size_in_pixels: PixelPair { x: 200, y: 500 },
        },
        Instance {
            position_within_window_in_pixels: PixelPair { x: 600, y: 300 },
            size_in_pixels: PixelPair { x: 300, y: 100 },
        },
    ]
}

/// Allocate the instance store of the reference configuration and write
/// the three hardcoded placements into its staging buffer.
pub fn build_reference_store() -> (s: InstanceStore)
    ensures
        s.wf(),
        s@.staging == reference_placements_spec(),
        s@.staging.len() == NUM_IMAGE_INSTANCES,
        s@.device.len() == NUM_IMAGE_INSTANCES,
{
    let mut store = InstanceStore::allocate(NUM_IMAGE_INSTANCES);
    let first = store.write(0, PixelPair { x: 0, y: 0 }, PixelPair { x: 300, y: 300 });
    let second = store.write(1, PixelPair { x: 300, y: 500 }, PixelPair { x: 200, y: 500 });
    let third = store.write(2, PixelPair { x: 600, y: 300 }, PixelPair { x: 300, y: 100 });
    proof {
        assert(first is Ok && second is Ok && third is Ok);
        assert(store@.staging =~= reference_placements_spec());
    }
    store
}

} // verus!
