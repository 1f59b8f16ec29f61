//! The texture and sampler binding.
//!
//! One RGBA8 image, decoded once from source bytes and immutable after
//! creation, paired with a sampler that tiles (wraps) coordinates outside
//! the texture and scales without interpolation.  Sampling is modelled at
//! texel granularity: a signed texel coordinate is reduced into the
//! texture by the configured wrap mode and the four bytes of the hit
//! texel are returned.

use vstd::arithmetic::div_mod::lemma_fundamental_div_mod_converse_mod;
use vstd::arithmetic::div_mod::lemma_mod_bound;
use vstd::arithmetic::div_mod::lemma_mod_multiples_vanish;
use vstd::arithmetic::div_mod::lemma_small_mod;
use vstd::arithmetic::mul::lemma_mul_is_commutative;
use vstd::prelude::*;

use crate::errors::RenderError;

verus! {

/// How the sampler treats texel coordinates outside the texture.
#[derive(Clone, Copy, Debug, PartialEq, Eq, Structural)]
pub enum WrapMode {
    /// Repeat the texture: coordinates are reduced modulo its extent.
    Tile,
    /// Pin coordinates to the nearest edge texel.
    Clamp,
}

/// How the sampler scales the texture.
#[derive(Clone, Copy, Debug, PartialEq, Eq, Structural)]
pub enum FilterMethod {
    /// Nearest-texel scaling, no interpolation.
    Scale,
}

/// The sampler configuration paired with the texture.
#[derive(Clone, Copy, Debug, PartialEq, Eq, Structural)]
pub struct SamplerConfig {
    /// Behaviour outside the unit interval.
    pub wrap: WrapMode,
    /// Scaling filter.
    pub filter: FilterMethod,
}

/// The sampler the renderer is configured with: tile wrap, nearest-texel
/// scale filter.
pub fn reference_sampler() -> (s: SamplerConfig)
    ensures
        s.wrap is Tile,
        s.filter is Scale,
{
    SamplerConfig { wrap: WrapMode::Tile, filter: FilterMethod::Scale }
}

/// A tiled texel coordinate: the coordinate reduced into `[0, size)`
/// modulo the texture extent, so the texture repeats in both directions.
pub open spec fn tile_wrap_spec(coord: int, size: int) -> int
    recommends
        size > 0,
{
    coord % size
}

/// A clamped texel coordinate: pinned to the nearest edge texel.
pub open spec fn clamp_spec(coord: int, size: int) -> int
    recommends
        size > 0,
{
    if coord < 0 {
        0
    } else if coord >= size {
        size - 1
    } else {
        coord
    }
}

/// The texel coordinate a sampler with the given wrap mode reads.
pub open spec fn sample_index_spec(mode: WrapMode, coord: int, size: int) -> int
    recommends
        size > 0,
{
    match mode {
        WrapMode::Tile => tile_wrap_spec(coord, size),
        WrapMode::Clamp => clamp_spec(coord, size),
    }
}

/// The four bytes of the texel at column `tx`, row `ty` of an RGBA8
/// pixel buffer `width` texels wide.
pub open spec fn texel_value_spec(pixels: Seq<u8>, width: int, tx: int, ty: int) -> (u8, u8, u8, u8) {
    let base = 4 * (ty * width + tx);
    (pixels[base], pixels[base + 1], pixels[base + 2], pixels[base + 3])
}

/// What decoding a byte buffer as an RGBA8 image yields: the width, the
/// height and the pixel bytes, or nothing where the bytes are malformed.
/// The result depends on the bytes alone.
pub uninterp spec fn decoded_rgba_spec(bytes: Seq<u8>) -> Option<(u32, u32, Seq<u8>)>;

/// Relies on image::load_from_memory and image::DynamicImage::to_rgba8:
/// the format is guessed from the bytes and decoded to an RGBA8 buffer,
/// so the result is a function of the bytes alone, and the raw data of
/// the resulting image buffer holds exactly `width * height * 4` bytes.
#[verifier::external_body]
fn decode_rgba(bytes: &[u8]) -> (r: Result<(u32, u32, Vec<u8>), RenderError>)
    ensures
        match r {
            Ok(d) => decoded_rgba_spec(bytes@) == Some((d.0, d.1, d.2@)) && d.2@.len() == 4 * d.0
                * d.1,
            Err(e) => decoded_rgba_spec(bytes@) is None && e is Decode,
        },
{
    match image::load_from_memory(bytes) {
        Ok(img) => {
            let rgba = img.to_rgba8();
            let (width, height) = rgba.dimensions();
            Ok((width, height, rgba.into_raw()))
        },
        Err(_) => Err(RenderError::Decode),
    }
}

/// One immutable RGBA8 texture and the sampler bound with it.
pub struct TextureBinding {
    width: u32,
    height: u32,
    pixels: Vec<u8>,
    sampler: SamplerConfig,
}

impl TextureBinding {
    /// Width of the texture, in texels.
    pub closed spec fn width_spec(&self) -> u32 {
        self.width
    }

    /// Height of the texture, in texels.
    pub closed spec fn height_spec(&self) -> u32 {
        self.height
    }

    /// The RGBA8 bytes of the texture, row by row.
    pub closed spec fn pixels_seq(&self) -> Seq<u8> {
        self.pixels@
    }

    /// The sampler bound with the texture.
    pub closed spec fn sampler_spec(&self) -> SamplerConfig {
        self.sampler
    }

    /// A created binding is non-degenerate, holds exactly four bytes per
    /// texel, and carries the reference sampler: tile wrap, scale filter.
    pub open spec fn wf(&self) -> bool {
        &&& self.width_spec() > 0
        &&& self.height_spec() > 0
        &&& self.pixels_seq().len() == 4 * self.width_spec() * self.height_spec()
        &&& self.sampler_spec().wrap is Tile
        &&& self.sampler_spec().filter is Scale
    }

    /// Build the binding from a decoded pixel buffer.  Succeeds exactly
    /// when the buffer holds four bytes per texel of a non-degenerate
    /// image; anything else is a fatal resource-creation error.
    pub fn create(pixels: Vec<u8>, width: u32, height: u32) -> (r: Result<Self, RenderError>)
        ensures
            r is Ok <==> width > 0 && height > 0 && pixels@.len() == 4 * width * height,
            r matches Ok(t) ==> t.wf() && t.width_spec() == width && t.height_spec() == height
                && t.pixels_seq() == pixels@ && t.sampler_spec() == (SamplerConfig {
                wrap: WrapMode::Tile,
                filter: FilterMethod::Scale,
            }),
            r matches Err(e) ==> e is ResourceCreation,
    {
        proof {
            assert((4 * (width as int)) * (height as int) <= (4 * (u32::MAX as int)) * (
            u32::MAX as int)) by (nonlinear_arith)
                requires
                    width as int <= u32::MAX as int,
                    height as int <= u32::MAX as int,
            ;
        }
        let expected: u128 = 4u128 * (width as u128) * (height as u128);
        if width > 0 && height > 0 && (pixels.len() as u128) == expected {
            Ok(TextureBinding { width, height, pixels, sampler: reference_sampler() })
        } else {
            Err(RenderError::ResourceCreation)
        }
    }

    /// Decode source bytes and build the binding.  Succeeds exactly when
    /// the bytes decode to a non-degenerate RGBA8 image; malformed bytes
    /// are a fatal decode error.
    pub fn from_bytes(bytes: &[u8]) -> (r: Result<Self, RenderError>)
        ensures
            r matches Ok(t) ==> decoded_rgba_spec(bytes@) == Some(
                (t.width_spec(), t.height_spec(), t.pixels_seq()),
            ) && t.wf(),
            r matches Err(e) ==> e is Decode && match decoded_rgba_spec(bytes@) {
                Some(d) => d.0 == 0 || d.1 == 0,
                None => true,
            },
    {
        match decode_rgba(bytes) {
            Ok((width, height, pixels)) => {
                if width > 0 && height > 0 {
                    Ok(TextureBinding { width, height, pixels, sampler: reference_sampler() })
                } else {
                    Err(RenderError::Decode)
                }
            },
            Err(_) => Err(RenderError::Decode),
        }
    }

    /// Width of the texture, in texels.
    pub fn width(&self) -> (r: u32)
        ensures
            r == self.width_spec(),
    {
        self.width
    }

    /// Height of the texture, in texels.
    pub fn height(&self) -> (r: u32)
        ensures
            r == self.height_spec(),
    {
        self.height
    }

    /// The RGBA8 bytes, for upload into the GPU texture.
    pub fn pixels(&self) -> (r: &Vec<u8>)
        ensures
            r@ == self.pixels_seq(),
    {
        &self.pixels
    }

    /// The sampler bound with the texture.
    pub fn sampler(&self) -> (r: SamplerConfig)
        ensures
            r == self.sampler_spec(),
    {
        self.sampler
    }

    /// Read the texel a sample at signed texel coordinates `(x, y)` hits.
    /// The bound sampler tiles, so coordinates outside the texture wrap
    /// around it in both axes rather than clamping to its edges.
    pub fn texel_fetch(&self, x: i64, y: i64) -> (r: (u8, u8, u8, u8))
        requires
            self.wf(),
        ensures
            r == texel_value_spec(
                self.pixels_seq(),
                self.width_spec() as int,
                sample_index_spec(self.sampler_spec().wrap, x as int, self.width_spec() as int),
                sample_index_spec(self.sampler_spec().wrap, y as int, self.height_spec() as int),
            ),
    {
        let tx = wrap_texel(WrapMode::Tile, x, self.width);
        let ty = wrap_texel(WrapMode::Tile, y, self.height);
        let total: usize = self.pixels.len();
        proof {
            let wi = self.width_spec() as int;
            let hi = self.height_spec() as int;
            assert((ty as int) * wi + (tx as int) >= 0 && 4 * ((ty as int) * wi + (tx as int)) + 4
                <= 4 * wi * hi) by (nonlinear_arith)
                requires
                    0 <= (tx as int) < wi,
                    0 <= (ty as int) < hi,
            ;
            assert(4 * wi * hi == total as int);
        }
        let base: usize = 4 * ((ty as usize) * (self.width as usize) + (tx as usize));
        (self.pixels[base], self.pixels[base + 1], self.pixels[base + 2], self.pixels[base + 3])
    }
}

/// Reduce a signed texel coordinate into `[0, size)` by the given wrap
/// mode.
pub fn wrap_texel(mode: WrapMode, coord: i64, size: u32) -> (r: u32)
    requires
        size > 0,
    ensures
        r == sample_index_spec(mode, coord as int, size as int),
        r < size,
{
    proof {
        lemma_mod_bound(coord as int, size as int);
    }
    match mode {
        WrapMode::Tile => {
            match coord.checked_rem_euclid(size as i64) {
                Some(v) => v as u32,
                None => {
                    proof {
                        assert(false);
                    }
                    0
                },
            }
        },
        WrapMode::Clamp => {
            if coord < 0 {
                0
            } else if coord >= size as i64 {
                size - 1
            } else {
                coord as u32
            }
        },
    }
}

/// The configured sampler tiles: shifting a texel coordinate by any whole
/// number of texture extents samples the same texel, in both directions,
/// and the sampled texel always lies inside the texture.  A clamping
/// sampler would instead pin every coordinate beyond an edge to that edge
/// texel.
pub proof fn lemma_sampling_outside_unit_interval_tiles(coord: int, k: int, size: int)
    requires
        size > 0,
    ensures
        sample_index_spec(WrapMode::Tile, coord + k * size, size) == sample_index_spec(
            WrapMode::Tile,
            coord,
            size,
        ),
        0 <= sample_index_spec(WrapMode::Tile, coord, size) < size,
        coord >= size ==> sample_index_spec(WrapMode::Clamp, coord, size) == size - 1,
        coord < 0 ==> sample_index_spec(WrapMode::Clamp, coord, size) == 0,
{
    lemma_mod_multiples_vanish(k, coord, size);
    lemma_mul_is_commutative(k, size);
    assert(size * k + coord == coord + k * size);
    lemma_mod_bound(coord, size);
}

/// One texture extent past a coordinate inside the texture, tiling reads
/// the same texel again, where clamping would have stopped at the edge.
pub proof fn lemma_tile_repeats_first_copy(coord: int, size: int)
    requires
        size > 0,
        0 <= coord < size,
    ensures
        sample_index_spec(WrapMode::Tile, coord + size, size) == coord,
        sample_index_spec(WrapMode::Tile, coord, size) == coord,
{
    lemma_small_mod(coord as nat, size as nat);
    lemma_mod_multiples_vanish(1, coord, size);
}

} // verus!
