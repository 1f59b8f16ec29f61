//! The pipeline state and the bundle that issues the draw call.
//!
//! The fixed-function state is alpha blending on the colour target and a
//! less-equal depth test with write enabled.  The bundle aggregates that
//! state with every bound resource — quad geometry, instance store,
//! window-size uniform, texture and sampler — and is their exclusive
//! owner: only the bundle may issue the one indexed, instanced draw call
//! that reads them, so nothing mutates them concurrently by construction.

use vstd::prelude::*;

use crate::errors::BoundsError;
use crate::geometry::GeometryTemplate;
use crate::instances::Instance;
use crate::instances::InstanceStore;
use crate::instances::PixelPair;
use crate::instances::StoreModel;
use crate::instances::flush_model;
use crate::instances::write_model;
use crate::texture::TextureBinding;
use crate::uniforms::WindowSizeUniform;

verus! {

/// How a fragment's depth is compared with the stored depth.
#[derive(Clone, Copy, Debug, PartialEq, Eq, Structural)]
pub enum DepthComparison {
    /// The fragment passes only strictly nearer than the stored depth.
    Less,
    /// The fragment passes at or nearer than the stored depth.
    LessEqual,
}

/// The depth-test half of the fixed-function state.
#[derive(Clone, Copy, Debug, PartialEq, Eq, Structural)]
pub struct DepthState {
    /// The comparison a fragment must pass.
    pub comparison: DepthComparison,
    /// Whether a passing fragment writes its depth back.
    pub write_enabled: bool,
}

/// How fragments blend into the colour target.
#[derive(Clone, Copy, Debug, PartialEq, Eq, Structural)]
pub enum BlendMode {
    /// Alpha-over blending of the fragment onto the target.
    Alpha,
}

/// The depth state the pipeline is built with: less-equal comparison with
/// write enabled.
pub open spec fn reference_depth_state() -> DepthState {
    DepthState { comparison: DepthComparison::LessEqual, write_enabled: true }
}

/// Whether a fragment at depth `fragment` passes the comparison against a
/// stored depth of `stored`.  Smaller is nearer.
pub open spec fn depth_passes_spec(comparison: DepthComparison, fragment: int, stored: int) -> bool {
    match comparison {
        DepthComparison::Less => fragment < stored,
        DepthComparison::LessEqual => fragment <= stored,
    }
}

/// The stored depth after a fragment is tested: a passing fragment writes
/// its depth back when writing is enabled, anything else leaves the
/// stored depth alone.
pub open spec fn depth_after_spec(state: DepthState, stored: u32, fragment: u32) -> u32 {
    if depth_passes_spec(state.comparison, fragment as int, stored as int) && state.write_enabled {
        fragment
    } else {
        stored
    }
}

/// Test one fragment against one stored depth value and report whether it
/// passed and what the stored depth becomes.
pub fn depth_test(state: DepthState, stored: u32, fragment: u32) -> (r: (bool, u32))
    ensures
        r.0 == depth_passes_spec(state.comparison, fragment as int, stored as int),
        r.1 == depth_after_spec(state, stored, fragment),
{
    let passes = match state.comparison {
        DepthComparison::Less => fragment < stored,
        DepthComparison::LessEqual => fragment <= stored,
    };
    let after = if passes && state.write_enabled {
        fragment
    } else {
        stored
    };
    (passes, after)
}

/// With a less-equal comparison and write enabled, drawing the same
/// geometry twice at equal depth in one frame does not cull the second
/// draw: the first fragment writes its own depth back, and the second
/// fragment at that same depth still passes.  A strict less comparison
/// would cull it.
pub proof fn lemma_less_equal_avoids_self_occlusion(stored: u32, fragment: u32)
    requires
        depth_passes_spec(DepthComparison::LessEqual, fragment as int, stored as int),
    ensures
        depth_passes_spec(
            DepthComparison::LessEqual,
            fragment as int,
            depth_after_spec(reference_depth_state(), stored, fragment) as int,
        ),
        !depth_passes_spec(
            DepthComparison::Less,
            fragment as int,
            depth_after_spec(reference_depth_state(), stored, fragment) as int,
        ),
{
}

/// The one draw call the bundle issues: indexed and instanced.
#[derive(Clone, Copy, Debug, PartialEq, Eq, Structural)]
pub struct DrawCall {
    /// How many indices each instance draws: the six of the shared quad.
    pub index_count: usize,
    /// How many instances are drawn: always the store's full capacity.
    pub instance_count: usize,
}

/// The compiled pipeline state and every resource it binds, as one unit.
pub struct Bundle {
    geometry: GeometryTemplate,
    store: InstanceStore,
    properties: WindowSizeUniform,
    texture: TextureBinding,
    depth: DepthState,
    blend: BlendMode,
}

impl Bundle {
    /// The bound quad geometry.
    pub closed spec fn geometry_spec(&self) -> GeometryTemplate {
        self.geometry
    }

    /// The contents of the bound instance store.
    pub closed spec fn store_model(&self) -> StoreModel {
        self.store@
    }

    /// The bound window-size uniform.
    pub closed spec fn properties_spec(&self) -> WindowSizeUniform {
        self.properties
    }

    /// The bound texture and sampler.
    pub closed spec fn texture_spec(&self) -> TextureBinding {
        self.texture
    }

    /// The depth half of the fixed-function state.
    pub closed spec fn depth_spec(&self) -> DepthState {
        self.depth
    }

    /// The blend half of the fixed-function state.
    pub closed spec fn blend_spec(&self) -> BlendMode {
        self.blend
    }

    /// Every bound resource is well formed and the fixed-function state is
    /// the reference one: alpha blending, less-equal depth with write.
    pub open spec fn wf(&self) -> bool {
        &&& self.geometry_spec().wf()
        &&& self.store_model().staging.len() == self.store_model().device.len()
        &&& self.properties_spec().wf()
        &&& self.texture_spec().wf()
        &&& self.depth_spec() == reference_depth_state()
        &&& self.blend_spec() is Alpha
    }

    /// Aggregate the bound resources once, at setup.  The bundle takes
    /// ownership of all of them; nothing else may touch them afterwards.
    pub fn new(
        geometry: GeometryTemplate,
        store: InstanceStore,
        properties: WindowSizeUniform,
        texture: TextureBinding,
    ) -> (b: Self)
        requires
            geometry.wf(),
            store.wf(),
            properties.wf(),
            texture.wf(),
        ensures
            b.wf(),
            b.geometry_spec() == geometry,
            b.store_model() == store@,
            b.properties_spec() == properties,
            b.texture_spec() == texture,
            b.depth_spec() == reference_depth_state(),
            b.blend_spec() is Alpha,
    {
        Bundle {
            geometry,
            store,
            properties,
            texture,
            depth: DepthState { comparison: DepthComparison::LessEqual, write_enabled: true },
            blend: BlendMode::Alpha,
        }
    }

    /// How many sprite instances the bundle draws.
    pub fn instance_capacity(&self) -> (n: usize)
        ensures
            n == self.store_model().staging.len(),
    {
        self.store.capacity()
    }

    /// Write the placement of one sprite into the staging side of the
    /// bound instance store.  An index at or beyond the capacity is
    /// refused with a bounds error and nothing changes.
    pub fn write_instance(&mut self, index: usize, position: PixelPair, size: PixelPair) -> (r:
        Result<(), BoundsError>)
        ensures
            r is Ok <==> index < old(self).store_model().staging.len(),
            r is Ok ==> final(self).store_model() == write_model(
                old(self).store_model(),
                index as int,
                Instance { position_within_window_in_pixels: position, size_in_pixels: size },
            ),
            r is Err ==> final(self).store_model() == old(self).store_model() && r == Err::<
                (),
                BoundsError,
            >(BoundsError { index, capacity: old(self).store_model().staging.len() as usize }),
            final(self).geometry_spec() == old(self).geometry_spec(),
            final(self).properties_spec() == old(self).properties_spec(),
            final(self).texture_spec() == old(self).texture_spec(),
            final(self).depth_spec() == old(self).depth_spec(),
            final(self).blend_spec() == old(self).blend_spec(),
            old(self).wf() ==> final(self).wf(),
    {
        self.store.write(index, position, size)
    }

    /// Copy the whole staging buffer into the instance buffer, once per
    /// frame before the draw, whether or not the records changed.
    pub fn flush_instances(&mut self)
        ensures
            final(self).store_model() == flush_model(old(self).store_model()),
            final(self).geometry_spec() == old(self).geometry_spec(),
            final(self).properties_spec() == old(self).properties_spec(),
            final(self).texture_spec() == old(self).texture_spec(),
            final(self).depth_spec() == old(self).depth_spec(),
            final(self).blend_spec() == old(self).blend_spec(),
            old(self).wf() ==> final(self).wf(),
    {
        self.store.flush()
    }

    /// Emit the bundle's one draw call: six indices per instance, the
    /// store's full capacity of instances, using the bound resources.
    pub fn encode(&self) -> (d: DrawCall)
        requires
            self.wf(),
        ensures
            d.index_count == 6,
            d.instance_count == self.store_model().staging.len(),
    {
        DrawCall {
            index_count: self.geometry.index_count(),
            instance_count: self.store.capacity(),
        }
    }

    /// The bound instance store, read-only.
    pub fn store(&self) -> (r: &InstanceStore)
        ensures
            r@ == self.store_model(),
    {
        &self.store
    }

    /// The bound quad geometry, read-only.
    pub fn geometry(&self) -> (r: &GeometryTemplate)
        ensures
            *r == self.geometry_spec(),
    {
        &self.geometry
    }

    /// The bound texture and sampler, read-only.
    pub fn texture(&self) -> (r: &TextureBinding)
        ensures
            *r == self.texture_spec(),
    {
        &self.texture
    }

    /// The bound window-size uniform.
    pub fn properties(&self) -> (r: WindowSizeUniform)
        ensures
            r == self.properties_spec(),
    {
        self.properties
    }

    /// The depth half of the fixed-function state.
    pub fn depth_state(&self) -> (r: DepthState)
        ensures
            r == self.depth_spec(),
    {
        self.depth
    }

    /// The blend half of the fixed-function state.
    pub fn blend_mode(&self) -> (r: BlendMode)
        ensures
            r == self.blend_spec(),
    {
        self.blend
    }
}

} // verus!
