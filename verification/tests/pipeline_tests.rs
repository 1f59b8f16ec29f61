use sprite_instancing::BlendMode;
use sprite_instancing::Bundle;
use sprite_instancing::DepthComparison;
use sprite_instancing::DepthState;
use sprite_instancing::GeometryTemplate;
use sprite_instancing::PixelPair;
use sprite_instancing::QuadCorner;
use sprite_instancing::TextureBinding;
use sprite_instancing::WindowSizeUniform;
use sprite_instancing::build_reference_store;
use sprite_instancing::depth_test;
use sprite_instancing::reference_window_size;

fn reference_bundle() -> Bundle {
    let geometry = GeometryTemplate::new();
    let store = build_reference_store();
    let texture = TextureBinding::create(vec![0u8; 4], 1, 1).unwrap();
    Bundle::new(geometry, store, reference_window_size(), texture)
}

#[test]
fn the_quad_template_holds_four_corners_and_six_indices() {
    let g = GeometryTemplate::new();
    let c = |x: u8, y: u8| QuadCorner {
        corner_x_zero_to_one: x,
        corner_y_zero_to_one: y,
    };
    assert_eq!(
        g.corners().as_slice(),
        &[c(0, 0), c(0, 1), c(1, 1), c(1, 0)]
    );
    assert_eq!(g.indices().as_slice(), &[0, 1, 2, 2, 3, 0]);
    assert_eq!(g.index_count(), 6);
}

#[test]
fn the_bundle_draws_six_indices_for_every_instance() {
    let bundle = reference_bundle();
    let draw = bundle.encode();
    assert_eq!(draw.index_count, 6);
    assert_eq!(draw.instance_count, 3);
    assert_eq!(bundle.instance_capacity(), 3);
}

#[test]
fn the_fixed_function_state_is_alpha_blend_and_less_equal_depth() {
    let bundle = reference_bundle();
    assert_eq!(
        bundle.depth_state(),
        DepthState {
            comparison: DepthComparison::LessEqual,
            write_enabled: true
        }
    );
    assert_eq!(bundle.blend_mode(), BlendMode::Alpha);
    assert_eq!(bundle.properties(), WindowSizeUniform::new(960, 720));
}

#[test]
fn equal_depth_does_not_cull_the_second_draw() {
    let state = DepthState {
        comparison: DepthComparison::LessEqual,
        write_enabled: true,
    };
    // First draw of the geometry: fragment at depth 100 against a cleared
    // buffer; it passes and writes its depth.
    let (first_passes, stored) = depth_test(state, u32::MAX, 100);
    assert!(first_passes);
    assert_eq!(stored, 100);
    // Second draw of the same geometry at the same depth in the same
    // frame: less-equal still passes, so it is not self-occluded.
    let (second_passes, stored_again) = depth_test(state, stored, 100);
    assert!(second_passes);
    assert_eq!(stored_again, 100);
    // A strict less comparison would have culled it.
    let strict = DepthState {
        comparison: DepthComparison::Less,
        write_enabled: true,
    };
    let (strict_passes, _) = depth_test(strict, stored, 100);
    assert!(!strict_passes);
}

#[test]
fn bundle_writes_reach_the_device_after_a_flush() {
    let mut bundle = reference_bundle();
    bundle
        .write_instance(0, PixelPair { x: 5, y: 6 }, PixelPair { x: 7, y: 8 })
        .unwrap();
    assert!(bundle.write_instance(3, PixelPair { x: 0, y: 0 }, PixelPair { x: 1, y: 1 }).is_err());
    bundle.flush_instances();
    let drawn = bundle.store().device_record(0);
    assert_eq!(drawn.position_within_window_in_pixels, PixelPair { x: 5, y: 6 });
    assert_eq!(drawn.size_in_pixels, PixelPair { x: 7, y: 8 });
}
