//! Fixed-capacity per-instance placement data and its staging/copy path.
//!
//! The store holds one placement record per sprite in a CPU-writable
//! staging area, mirrored by a model of the GPU-readable instance buffer.
//! Writes touch only the staging side; an explicit per-frame flush copies
//! all records from staging into the instance buffer, whether or not they
//! changed since the previous frame.  The capacity is fixed when the store
//! is allocated: growing it would need the whole pipeline re-created.

use vstd::prelude::*;

use crate::errors::BoundsError;

verus! {

/// A pair of whole-pixel coordinates inside the window.
#[derive(Clone, Copy, Debug, PartialEq, Eq, Structural)]
pub struct PixelPair {
    /// Horizontal component, in pixels.
    pub x: u32,
    /// Vertical component, in pixels.
    pub y: u32,
}

/// The placement of one sprite: where its top-left corner sits in the
/// window and how many pixels it spans.
#[derive(Clone, Copy, Debug, PartialEq, Eq, Structural)]
pub struct Instance {
    /// Top-left corner of the sprite, in pixels from the window's origin.
    pub position_within_window_in_pixels: PixelPair,
    /// Width and height of the sprite, in pixels.
    pub size_in_pixels: PixelPair,
}

/// The all-zero placement that a freshly allocated slot holds.
pub open spec fn zero_instance() -> Instance {
    Instance {
        position_within_window_in_pixels: PixelPair { x: 0, y: 0 },
        size_in_pixels: PixelPair { x: 0, y: 0 },
    }
}

impl Instance {
    /// The all-zero placement that a freshly allocated slot holds.
    pub fn zeroed() -> (r: Self)
        ensures
            r == zero_instance(),
    {
        Instance {
            position_within_window_in_pixels: PixelPair { x: 0, y: 0 },
            size_in_pixels: PixelPair { x: 0, y: 0 },
        }
    }
}

/// What an [`InstanceStore`] holds: the staging records the CPU writes and
/// the records the model of the GPU-side instance buffer currently holds.
#[verifier::ext_equal]
pub ghost struct StoreModel {
    /// Contents of the CPU-writable staging buffer.
    pub staging: Seq<Instance>,
    /// Contents of the GPU-readable instance buffer.
    pub device: Seq<Instance>,
}

/// What one write changes: the staging record at `index`, nothing else.
pub open spec fn write_model(m: StoreModel, index: int, record: Instance) -> StoreModel {
    StoreModel { staging: m.staging.update(index, record), device: m.device }
}

/// What one flush changes: the instance buffer becomes a copy of the whole
/// staging buffer; the staging side is untouched.
pub open spec fn flush_model(m: StoreModel) -> StoreModel {
    StoreModel { staging: m.staging, device: m.staging }
}

/// Placement data for a fixed number of sprites, with a CPU-writable
/// staging buffer and a model of the GPU-readable instance buffer it is
/// copied into each frame.
pub struct InstanceStore {
    staging: Vec<Instance>,
    device_buffer: Vec<Instance>,
}

impl View for InstanceStore {
    type V = StoreModel;

    closed spec fn view(&self) -> StoreModel {
        StoreModel { staging: self.staging@, device: self.device_buffer@ }
    }
}

impl InstanceStore {
    /// Both sides always hold exactly the capacity fixed at allocation.
    pub open spec fn wf(&self) -> bool {
        self@.staging.len() == self@.device.len()
    }

    /// Create a staging buffer and an instance buffer of exactly
    /// `capacity` records each, all zeroed.
    pub fn allocate(capacity: usize) -> (s: Self)
        ensures
            s.wf(),
            s@.staging.len() == capacity,
            s@.device.len() == capacity,
            forall|i: int| 0 <= i < capacity ==> s@.staging[i] == zero_instance(),
            s@.device == s@.staging,
    {
        let mut staging: Vec<Instance> = Vec::new();
        let mut device_buffer: Vec<Instance> = Vec::new();
        let mut filled: usize = 0;
        while filled < capacity
            invariant
                filled <= capacity,
                staging@.len() == filled,
                device_buffer@.len() == filled,
                forall|i: int| 0 <= i < filled ==> staging@[i] == zero_instance(),
                forall|i: int| 0 <= i < filled ==> device_buffer@[i] == zero_instance(),
            decreases capacity - filled,
        {
            staging.push(Instance::zeroed());
            device_buffer.push(Instance::zeroed());
            filled = filled + 1;
        }
        let s = InstanceStore { staging, device_buffer };
        proof {
            assert(s@.device =~= s@.staging);
        }
        s
    }

    /// How many sprite records the store was allocated for.
    pub fn capacity(&self) -> (n: usize)
        ensures
            n == self@.staging.len(),
    {
        self.staging.len()
    }

    /// Read back one staging record, for upload by the shell that owns the
    /// real mapped buffer.
    pub fn staging_record(&self, index: usize) -> (r: Instance)
        requires
            index < self@.staging.len(),
        ensures
            r == self@.staging[index as int],
    {
        self.staging[index]
    }

    /// Write the placement of the sprite at `index` into the staging
    /// buffer.  Only the staging side is touched, so no GPU
    /// synchronization is needed.  An index at or beyond the capacity is
    /// refused with a bounds error and nothing is written: an out-of-range
    /// index never corrupts adjacent records.
    pub fn write(&mut self, index: usize, position: PixelPair, size: PixelPair) -> (r: Result<
        (),
        BoundsError,
    >)
        ensures
            r is Ok <==> index < old(self)@.staging.len(),
            r is Ok ==> final(self)@ == write_model(
                old(self)@,
                index as int,
                Instance { position_within_window_in_pixels: position, size_in_pixels: size },
            ),
            r is Err ==> final(self)@ == old(self)@ && r == Err::<(), BoundsError>(
                BoundsError { index, capacity: old(self)@.staging.len() as usize },
            ),
    {
        if index < self.staging.len() {
            self.staging.set(
                index,
                Instance { position_within_window_in_pixels: position, size_in_pixels: size },
            );
            proof {
                assert(self@ =~= write_model(
                    old(self)@,
                    index as int,
                    Instance { position_within_window_in_pixels: position, size_in_pixels: size },
                ));
            }
            Ok(())
        } else {
            let capacity = self.staging.len();
            Err(BoundsError { index, capacity })
        }
    }

    /// Copy all records from the staging buffer into the instance buffer.
    /// Done once per frame before the draw, whether or not the records
    /// changed since the previous frame; the staging side is untouched.
    pub fn flush(&mut self)
        ensures
            final(self)@ == flush_model(old(self)@),
            final(self).wf(),
    {
        self.device_buffer.clear();
        let mut copied: usize = 0;
        while copied < self.staging.len()
            invariant
                copied <= self.staging@.len(),
                self.device_buffer@.len() == copied,
                self.staging@ == old(self).staging@,
                forall|i: int| 0 <= i < copied ==> self.device_buffer@[i] == self.staging@[i],
            decreases self.staging@.len() - copied,
        {
            let record = self.staging[copied];
            self.device_buffer.push(record);
            copied = copied + 1;
        }
        proof {
            assert(self@ =~= flush_model(old(self)@));
        }
    }

    /// Read back one record of the instance-buffer model, for checks that
    /// the copy reached the GPU side.
    pub fn device_record(&self, index: usize) -> (r: Instance)
        requires
            index < self@.device.len(),
        ensures
            r == self@.device[index as int],
    {
        self.device_buffer[index]
    }
}

/// Flushing is idempotent: a second flush with no intervening write leaves
/// the instance buffer exactly as the first flush left it.
pub proof fn lemma_flush_idempotent(m: StoreModel)
    ensures
        flush_model(flush_model(m)) == flush_model(m),
{
    assert(flush_model(flush_model(m)) =~= flush_model(m));
}

/// A write lands in the instance buffer after the next flush: the record
/// at the written index is the written placement, and every other index is
/// what the staging buffer already held.
pub proof fn lemma_write_then_flush(m: StoreModel, index: int, record: Instance)
    requires
        0 <= index < m.staging.len(),
    ensures
        flush_model(write_model(m, index, record)).device[index] == record,
        forall|j: int|
            0 <= j < m.staging.len() && j != index ==> flush_model(
                write_model(m, index, record),
            ).device[j] == m.staging[j],
{
}

} // verus!
