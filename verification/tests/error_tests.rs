use sprite_instancing::BoundsError;
use sprite_instancing::InstanceStore;
use sprite_instancing::PixelPair;
use sprite_instancing::RenderError;

#[test]
fn every_error_reports_a_descriptive_message() {
    assert_eq!(
        RenderError::ResourceCreation.describe(),
        "resource creation failed"
    );
    assert_eq!(RenderError::Decode.describe(), "image bytes malformed");
    assert_eq!(
        RenderError::Submission.describe(),
        "command submission failed"
    );
    assert_eq!(RenderError::Presentation.describe(), "buffer swap failed");
    assert_eq!(
        RenderError::Mapping.describe(),
        "staging buffer could not be mapped"
    );
}

#[test]
fn a_bounds_error_reports_the_index_and_the_capacity() {
    let mut store = InstanceStore::allocate(2);
    let e = store
        .write(5, PixelPair { x: 1, y: 1 }, PixelPair { x: 1, y: 1 })
        .unwrap_err();
    assert_eq!(e, BoundsError { index: 5, capacity: 2 });
    assert_eq!(e.index, 5);
    assert_eq!(e.capacity, 2);
}
