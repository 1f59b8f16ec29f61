//! A verified model of a GPU-instanced sprite renderer.
//!
//! A fixed set of textured rectangular sprites is drawn inside a window,
//! all sharing one quad geometry and one instanced draw call.  This crate
//! holds the core of that design: the static geometry template, the
//! per-instance placement store with its staging/copy path, the window-size
//! uniform, the texture and sampler binding, the bundle that ties the bound
//! resources to the draw call, and the frame loop's state machine.  The
//! window, the GPU device and the event source are outside collaborators;
//! an unverified shell drives them with the values this crate computes.

use vstd::prelude::*;

mod errors;
mod frame;
mod geometry;
mod instances;
mod pipeline;
mod placement;
mod setup;
mod texture;
mod uniforms;

pub use errors::BoundsError;
pub use errors::RenderError;
pub use frame::FrameCommand;
pub use frame::FrameRenderer;
pub use frame::LoopState;
pub use frame::WindowEvent;
pub use frame::frame_commands_spec;
pub use frame::iteration_commands_model;
pub use frame::lemma_close_request_finishes_frame_then_stops;
pub use frame::poll_model;
pub use geometry::GeometryTemplate;
pub use geometry::QuadCorner;
pub use geometry::lemma_indices_in_range;
pub use geometry::quad_corners_spec;
pub use geometry::quad_indices_spec;
pub use instances::Instance;
pub use instances::InstanceStore;
pub use instances::PixelPair;
pub use instances::StoreModel;
pub use instances::flush_model;
pub use instances::lemma_flush_idempotent;
pub use instances::lemma_write_then_flush;
pub use instances::write_model;
pub use instances::zero_instance;
pub use placement::PixelRect;
pub use placement::covered_rect;
pub use placement::covered_rect_spec;
pub use placement::lemma_corners_span_covered_rect;
pub use placement::lemma_ndc_mapping_faithful;
pub use placement::lemma_written_instance_renders_at_its_rect;
pub use placement::ndc_numerator;
pub use placement::ndc_numerator_spec;
pub use placement::rect_contains;
pub use placement::rect_contains_pixel;
pub use placement::vertex_position_in_pixels;
pub use placement::vertex_x_spec;
pub use placement::vertex_y_spec;
pub use texture::FilterMethod;
pub use texture::SamplerConfig;
pub use texture::TextureBinding;
pub use texture::WrapMode;
pub use texture::clamp_spec;
pub use texture::decoded_rgba_spec;
pub use texture::lemma_sampling_outside_unit_interval_tiles;
pub use texture::lemma_tile_repeats_first_copy;
pub use texture::reference_sampler;
pub use texture::sample_index_spec;
pub use texture::texel_value_spec;
pub use texture::tile_wrap_spec;
pub use texture::wrap_texel;
pub use pipeline::BlendMode;
pub use pipeline::Bundle;
pub use pipeline::DepthComparison;
pub use pipeline::DepthState;
pub use pipeline::DrawCall;
pub use pipeline::depth_after_spec;
pub use pipeline::depth_passes_spec;
pub use pipeline::depth_test;
pub use pipeline::lemma_less_equal_avoids_self_occlusion;
pub use pipeline::reference_depth_state;
pub use uniforms::WindowSizeUniform;
pub use setup::build_reference_store;
pub use setup::reference_placements_spec;
pub use setup::reference_window_size;

verus! {

/// Number of sprite instances in the reference configuration.
pub const NUM_IMAGE_INSTANCES: usize = 3;

} // verus!
