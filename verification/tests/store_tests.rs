use sprite_instancing::BoundsError;
use sprite_instancing::Instance;
use sprite_instancing::InstanceStore;
use sprite_instancing::PixelPair;
use sprite_instancing::build_reference_store;

fn record(px: u32, py: u32, sx: u32, sy: u32) -> Instance {
    Instance {
        position_within_window_in_pixels: PixelPair { x: px, y: py },
        size_in_pixels: PixelPair { x: sx, y: sy },
    }
}

#[test]
fn allocate_fills_with_zeroed_records() {
    let store = InstanceStore::allocate(3);
    assert_eq!(store.capacity(), 3);
    for i in 0..3 {
        assert_eq!(store.staging_record(i), record(0, 0, 0, 0));
        assert_eq!(store.device_record(i), record(0, 0, 0, 0));
    }
}

#[test]
fn write_out_of_bounds_fails_and_changes_nothing() {
    let mut store = InstanceStore::allocate(3);
    let r = store.write(3, PixelPair { x: 7, y: 7 }, PixelPair { x: 9, y: 9 });
    assert_eq!(r, Err(BoundsError { index: 3, capacity: 3 }));
    let far = store.write(usize::MAX, PixelPair { x: 7, y: 7 }, PixelPair { x: 9, y: 9 });
    assert_eq!(far, Err(BoundsError { index: usize::MAX, capacity: 3 }));
    for i in 0..3 {
        assert_eq!(store.staging_record(i), record(0, 0, 0, 0));
        assert_eq!(store.device_record(i), record(0, 0, 0, 0));
    }
}

#[test]
fn write_touches_only_staging_until_flush() {
    let mut store = InstanceStore::allocate(2);
    store
        .write(1, PixelPair { x: 10, y: 20 }, PixelPair { x: 30, y: 40 })
        .unwrap();
    assert_eq!(store.staging_record(1), record(10, 20, 30, 40));
    assert_eq!(store.device_record(1), record(0, 0, 0, 0));
    store.flush();
    assert_eq!(store.device_record(1), record(10, 20, 30, 40));
    assert_eq!(store.device_record(0), record(0, 0, 0, 0));
}

#[test]
fn flush_twice_without_write_is_idempotent() {
    let mut store = build_reference_store();
    store.flush();
    let mut first: Vec<Instance> = Vec::new();
    for i in 0..store.capacity() {
        first.push(store.device_record(i));
    }
    store.flush();
    for i in 0..store.capacity() {
        assert_eq!(store.device_record(i), first[i]);
    }
}

#[test]
fn reference_store_holds_the_three_placements() {
    let store = build_reference_store();
    assert_eq!(store.capacity(), 3);
    assert_eq!(store.staging_record(0), record(0, 0, 300, 300));
    assert_eq!(store.staging_record(1), record(300, 500, 200, 500));
    assert_eq!(store.staging_record(2), record(600, 300, 300, 100));
}
