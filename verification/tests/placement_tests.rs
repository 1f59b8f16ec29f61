use sprite_instancing::Instance;
use sprite_instancing::PixelPair;
use sprite_instancing::PixelRect;
use sprite_instancing::QuadCorner;
use sprite_instancing::build_reference_store;
use sprite_instancing::covered_rect;
use sprite_instancing::ndc_numerator;
use sprite_instancing::rect_contains_pixel;
use sprite_instancing::reference_window_size;
use sprite_instancing::vertex_position_in_pixels;

fn record(px: u32, py: u32, sx: u32, sy: u32) -> Instance {
    Instance {
        position_within_window_in_pixels: PixelPair { x: px, y: py },
        size_in_pixels: PixelPair { x: sx, y: sy },
    }
}

fn corner(x: u8, y: u8) -> QuadCorner {
    QuadCorner {
        corner_x_zero_to_one: x,
        corner_y_zero_to_one: y,
    }
}

#[test]
fn scenario_one_instance_covers_its_rect_in_a_960_by_720_window() {
    let window = reference_window_size();
    assert_eq!(window.width_in_pixels, 960);
    assert_eq!(window.height_in_pixels, 720);
    let sprite = record(0, 0, 300, 300);
    let rect = covered_rect(&sprite);
    assert_eq!(
        rect,
        PixelRect {
            x: 0,
            y: 0,
            width: 300,
            height: 300
        }
    );
    assert!(rect_contains_pixel(&rect, 0, 0));
    assert!(rect_contains_pixel(&rect, 299, 299));
    assert!(!rect_contains_pixel(&rect, 300, 0));
    assert!(!rect_contains_pixel(&rect, 0, 300));
}

#[test]
fn corners_map_to_position_and_position_plus_size() {
    let sprite = record(300, 500, 200, 500);
    assert_eq!(vertex_position_in_pixels(&sprite, &corner(0, 0)), (300, 500));
    assert_eq!(vertex_position_in_pixels(&sprite, &corner(0, 1)), (300, 1000));
    assert_eq!(vertex_position_in_pixels(&sprite, &corner(1, 1)), (500, 1000));
    assert_eq!(vertex_position_in_pixels(&sprite, &corner(1, 0)), (500, 500));
}

#[test]
fn ndc_numerators_match_the_mapping() {
    // ndc = (pixel / window) * 2 - 1, carried as ndc * window.
    assert_eq!(ndc_numerator(0, 960), -960); // left edge: -1
    assert_eq!(ndc_numerator(960, 960), 960); // right edge: +1
    assert_eq!(ndc_numerator(480, 960), 0); // centre: 0
    assert_eq!(ndc_numerator(300, 960), -360); // 300 px: -0.375
    assert_eq!(ndc_numerator(0, 720), -720);
    assert_eq!(ndc_numerator(720, 720), 720);
}

#[test]
fn scenario_three_instances_each_at_their_rect() {
    let mut store = build_reference_store();
    store.flush();
    let expected = [
        PixelRect {
            x: 0,
            y: 0,
            width: 300,
            height: 300,
        },
        PixelRect {
            x: 300,
            y: 500,
            width: 200,
            height: 500,
        },
        PixelRect {
            x: 600,
            y: 300,
            width: 300,
            height: 100,
        },
    ];
    for i in 0..3 {
        let drawn = store.device_record(i);
        assert_eq!(covered_rect(&drawn), expected[i]);
    }
}
