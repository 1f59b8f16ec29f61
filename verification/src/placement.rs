//! Where an instance's quad lands on the screen.
//!
//! The vertex stage places each corner of the shared quad at
//! `position + corner * size` in window pixels and maps that point to
//! normalized device coordinates by `ndc = (pixel / windowSize) * 2 - 1`,
//! with the vertical axis flipped by the configured orientation.  Window
//! sizes are whole pixels, so the mapping is stated exactly over integers:
//! an NDC value is carried as its numerator over the window size, i.e.
//! `ndc * windowSize`.

use vstd::prelude::*;

use crate::geometry::QuadCorner;
use crate::instances::Instance;
use crate::instances::PixelPair;

verus! {

/// An axis-aligned rectangle of whole pixels: the half-open spans
/// `[x, x + width)` and `[y, y + height)`.
#[derive(Clone, Copy, Debug, PartialEq, Eq, Structural)]
pub struct PixelRect {
    /// Leftmost column of the rectangle.
    pub x: u32,
    /// Topmost row of the rectangle.
    pub y: u32,
    /// Number of columns the rectangle spans.
    pub width: u32,
    /// Number of rows the rectangle spans.
    pub height: u32,
}

/// Whether the pixel `(px, py)` lies inside the rectangle.
pub open spec fn rect_contains(r: PixelRect, px: int, py: int) -> bool {
    r.x <= px < r.x + r.width && r.y <= py < r.y + r.height
}

/// Horizontal pixel coordinate of one quad corner of an instance.
pub open spec fn vertex_x_spec(record: Instance, corner: QuadCorner) -> int {
    record.position_within_window_in_pixels.x + corner.corner_x_zero_to_one
        * record.size_in_pixels.x
}

/// Vertical pixel coordinate of one quad corner of an instance.
pub open spec fn vertex_y_spec(record: Instance, corner: QuadCorner) -> int {
    record.position_within_window_in_pixels.y + corner.corner_y_zero_to_one
        * record.size_in_pixels.y
}

/// Numerator of the normalized device coordinate of a pixel coordinate:
/// `ndc * window = 2 * pixel - window`, so `pixel == 0` gives `-window`
/// (NDC `-1`) and `pixel == window` gives `window` (NDC `+1`).
pub open spec fn ndc_numerator_spec(pixel: int, window: int) -> int {
    2 * pixel - window
}

/// The pixel rectangle an instance's quad covers: its top-left pixel is
/// the instance's position and its extent is the instance's size.
pub open spec fn covered_rect_spec(record: Instance) -> PixelRect {
    PixelRect {
        x: record.position_within_window_in_pixels.x,
        y: record.position_within_window_in_pixels.y,
        width: record.size_in_pixels.x,
        height: record.size_in_pixels.y,
    }
}

/// Place one corner of the shared quad for one instance, in window pixels.
pub fn vertex_position_in_pixels(record: &Instance, corner: &QuadCorner) -> (r: (u64, u64))
    requires
        corner.wf(),
    ensures
        r.0 == vertex_x_spec(*record, *corner),
        r.1 == vertex_y_spec(*record, *corner),
{
    let span_x: u64 = if corner.corner_x_zero_to_one == 1 {
        record.size_in_pixels.x as u64
    } else {
        0
    };
    let span_y: u64 = if corner.corner_y_zero_to_one == 1 {
        record.size_in_pixels.y as u64
    } else {
        0
    };
    let x: u64 = record.position_within_window_in_pixels.x as u64 + span_x;
    let y: u64 = record.position_within_window_in_pixels.y as u64 + span_y;
    (x, y)
}

/// Numerator over the window size of the normalized device coordinate of
/// a pixel coordinate, as the vertex stage computes it.
pub fn ndc_numerator(pixel: u64, window: u32) -> (r: i64)
    requires
        pixel <= u32::MAX as u64 * 2,
    ensures
        r == ndc_numerator_spec(pixel as int, window as int),
{
    2 * (pixel as i64) - (window as i64)
}

/// The pixel rectangle an instance's quad covers on screen.
pub fn covered_rect(record: &Instance) -> (r: PixelRect)
    ensures
        r == covered_rect_spec(*record),
{
    PixelRect {
        x: record.position_within_window_in_pixels.x,
        y: record.position_within_window_in_pixels.y,
        width: record.size_in_pixels.x,
        height: record.size_in_pixels.y,
    }
}

/// Whether the pixel `(px, py)` lies inside the rectangle.
pub fn rect_contains_pixel(r: &PixelRect, px: u32, py: u32) -> (b: bool)
    ensures
        b == rect_contains(*r, px as int, py as int),
{
    r.x <= px && (px as u64) < r.x as u64 + r.width as u64 && r.y <= py && (py as u64) < r.y
        as u64 + r.height as u64
}

/// The quad's corners span exactly the covered rectangle: the corner at
/// `(0,0)` coincides with the instance's position (the top-left pixel) and
/// the corner at `(1,1)` sits at position plus size, so the extent equals
/// the size.
pub proof fn lemma_corners_span_covered_rect(record: Instance, corner: QuadCorner)
    requires
        corner.wf(),
    ensures
        corner.corner_x_zero_to_one == 0 ==> vertex_x_spec(record, corner)
            == covered_rect_spec(record).x,
        corner.corner_y_zero_to_one == 0 ==> vertex_y_spec(record, corner)
            == covered_rect_spec(record).y,
        corner.corner_x_zero_to_one == 1 ==> vertex_x_spec(record, corner)
            == covered_rect_spec(record).x + covered_rect_spec(record).width,
        corner.corner_y_zero_to_one == 1 ==> vertex_y_spec(record, corner)
            == covered_rect_spec(record).y + covered_rect_spec(record).height,
{
}

/// Writing a placement and flushing puts the written record into the
/// instance buffer at the written index, and the quad drawn from that
/// record covers exactly the rectangle whose top-left pixel is the
/// written position and whose extent is the written size: its corner at
/// `(0,0)` lands on the position and its corner at `(1,1)` on position
/// plus size.
pub proof fn lemma_written_instance_renders_at_its_rect(
    m: crate::instances::StoreModel,
    index: int,
    position: PixelPair,
    size: PixelPair,
)
    requires
        0 <= index < m.staging.len(),
    ensures
        ({
            let record = Instance {
                position_within_window_in_pixels: position,
                size_in_pixels: size,
            };
            let after = crate::instances::flush_model(
                crate::instances::write_model(m, index, record),
            );
            &&& after.device[index] == record
            &&& covered_rect_spec(after.device[index]) == (PixelRect {
                x: position.x,
                y: position.y,
                width: size.x,
                height: size.y,
            })
            &&& vertex_x_spec(
                after.device[index],
                QuadCorner { corner_x_zero_to_one: 0, corner_y_zero_to_one: 0 },
            ) == position.x
            &&& vertex_y_spec(
                after.device[index],
                QuadCorner { corner_x_zero_to_one: 0, corner_y_zero_to_one: 0 },
            ) == position.y
            &&& vertex_x_spec(
                after.device[index],
                QuadCorner { corner_x_zero_to_one: 1, corner_y_zero_to_one: 1 },
            ) == position.x + size.x
            &&& vertex_y_spec(
                after.device[index],
                QuadCorner { corner_x_zero_to_one: 1, corner_y_zero_to_one: 1 },
            ) == position.y + size.y
        }),
{
}

/// The pixel-to-NDC mapping is faithful: it is strictly increasing (so it
/// keeps distinct pixel columns distinct and preserves their order), and
/// it sends the window edges to the NDC edges, `0` to `-1` and `window`
/// to `+1` (as numerators over the window size).
pub proof fn lemma_ndc_mapping_faithful(p1: int, p2: int, window: int)
    requires
        window > 0,
    ensures
        p1 < p2 ==> ndc_numerator_spec(p1, window) < ndc_numerator_spec(p2, window),
        ndc_numerator_spec(p1, window) == ndc_numerator_spec(p2, window) ==> p1 == p2,
        ndc_numerator_spec(0, window) == -window,
        ndc_numerator_spec(window, window) == window,
{
}

} // verus!
