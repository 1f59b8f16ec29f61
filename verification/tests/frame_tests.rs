use sprite_instancing::Bundle;
use sprite_instancing::FrameCommand;
use sprite_instancing::PixelPair;
use sprite_instancing::FrameRenderer;
use sprite_instancing::GeometryTemplate;
use sprite_instancing::TextureBinding;
use sprite_instancing::WindowEvent;
use sprite_instancing::build_reference_store;
use sprite_instancing::reference_window_size;

fn reference_bundle() -> Bundle {
    let geometry = GeometryTemplate::new();
    let store = build_reference_store();
    let texture = TextureBinding::create(vec![0u8; 4], 1, 1).unwrap();
    Bundle::new(geometry, store, reference_window_size(), texture)
}

fn full_frame(capacity: usize) -> Vec<FrameCommand> {
    vec![
        FrameCommand::ClearColour {
            red: 0,
            green: 0,
            blue: 0,
            alpha: 255,
        },
        FrameCommand::ClearDepthToFar,
        FrameCommand::CopyInstances { count: capacity },
        FrameCommand::Draw {
            index_count: 6,
            instance_count: capacity,
        },
        FrameCommand::Submit,
        FrameCommand::Present,
        FrameCommand::Cleanup,
    ]
}

#[test]
fn a_frame_is_clear_copy_draw_submit_present_cleanup() {
    let renderer = FrameRenderer::new();
    let mut bundle = reference_bundle();
    let cmds = renderer.render_frame(&mut bundle);
    assert_eq!(cmds, full_frame(3));
}

#[test]
fn events_other_than_close_keep_the_loop_running() {
    let mut renderer = FrameRenderer::new();
    assert!(renderer.is_running());
    renderer.poll_events(&vec![WindowEvent::Other, WindowEvent::Other]);
    assert!(renderer.is_running());
    renderer.poll_events(&Vec::new());
    assert!(renderer.is_running());
}

#[test]
fn scenario_close_request_mid_loop_finishes_the_frame_then_stops() {
    let mut renderer = FrameRenderer::new();
    let mut bundle = reference_bundle();

    // A quiet first iteration renders and keeps running.
    let first = renderer.run_iteration(&mut bundle, &vec![WindowEvent::Other]);
    assert_eq!(first, full_frame(3));
    assert!(renderer.is_running());

    // The close request arrives mid-loop: the current frame still
    // completes — its draw and present are recorded — then the loop stops.
    let events = vec![WindowEvent::Other, WindowEvent::CloseRequested];
    let closing = renderer.run_iteration(&mut bundle, &events);
    assert_eq!(closing, full_frame(3));
    assert!(closing.contains(&FrameCommand::Draw {
        index_count: 6,
        instance_count: 3
    }));
    assert!(closing.contains(&FrameCommand::Present));
    assert!(!renderer.is_running());

    // No draw occurs after the transition: a stopped iteration records
    // nothing at all.
    let after = renderer.run_iteration(&mut bundle, &Vec::new());
    assert!(after.is_empty());
    assert!(!renderer.is_running());
}

#[test]
fn a_frame_flushes_staging_into_the_instance_buffer() {
    let renderer = FrameRenderer::new();
    let mut bundle = reference_bundle();
    bundle
        .write_instance(2, PixelPair { x: 1, y: 2 }, PixelPair { x: 3, y: 4 })
        .unwrap();
    let _ = renderer.render_frame(&mut bundle);
    let drawn = bundle.store().device_record(2);
    assert_eq!(drawn.position_within_window_in_pixels, PixelPair { x: 1, y: 2 });
    assert_eq!(drawn.size_in_pixels, PixelPair { x: 3, y: 4 });
}
