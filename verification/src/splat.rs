//! Blend-weight packing and GPU texture sync.
//!
//! A weight field holds one RGBA byte pixel per grid cell; packing flattens
//! it into the tightly packed byte buffer a GPU texture upload expects, and
//! the sync pass re-derives that buffer only when the source field has been
//! marked dirty.

use vstd::prelude::*;
use vstd::arithmetic::div_mod::lemma_fundamental_div_mod_converse;

verus! {

/// Dense row-major grid of 4-channel blend weights: one byte pixel per grid
/// cell, `data[z * width + x] = [r, g, b, a]`, channels mapping to blend
/// layers 0 through 3.
pub struct WeightMap {
    pub width: usize,
    pub height: usize,
    pub data: Vec<[u8; 4]>,
}

impl WeightMap {
    /// The pixel array covers the grid exactly.
    pub open spec fn wf(&self) -> bool {
        self.data@.len() == self.width * self.height
    }

    /// Creates a zero-filled weight map of the given dimensions.
    pub fn new(width: usize, height: usize) -> (map: Self)
        requires
            width * height <= usize::MAX,
        ensures
            map.wf(),
            map.width == width,
            map.height == height,
            forall|i: int, c: int|
                0 <= i < map.data@.len() && 0 <= c < 4 ==> (#[trigger] map.data@[i]@[c]) == 0,
    {
        let mut data: Vec<[u8; 4]> = Vec::new();
        let mut filled: usize = 0;
        let target: usize = width * height;
        while filled < target
            invariant
                filled <= target,
                data@.len() == filled,
                forall|i: int, c: int|
                    0 <= i < data@.len() && 0 <= c < 4 ==> (#[trigger] data@[i]@[c]) == 0,
            decreases target - filled,
        {
            data.push([0, 0, 0, 0]);
            filled = filled + 1;
        }
        WeightMap { width, height, data }
    }
}

/// The tightly packed byte image of a pixel sequence: byte `k` is channel
/// `k % 4` of pixel `k / 4`, so pixel `i` occupies bytes `4 * i .. 4 * i + 4`
/// in R, G, B, A order with no padding.
pub open spec fn packed_bytes(pixels: Seq<[u8; 4]>) -> Seq<u8> {
    Seq::new((4 * pixels.len()) as nat, |k: int| pixels[k / 4]@[k % 4])
}

/// Byte `4 * i + c` of a packed buffer equals channel `c` of source pixel
/// `i`: packing round-trips every pixel value exactly.
pub proof fn lemma_packed_byte_round_trip(pixels: Seq<[u8; 4]>, i: int, c: int)
    requires
        0 <= i < pixels.len(),
        0 <= c < 4,
    ensures
        packed_bytes(pixels)[4 * i + c] == pixels[i]@[c],
{
    lemma_fundamental_div_mod_converse(4 * i + c, 4, i, c);
}

/// Flattens a weight map into the contiguous RGBA8 byte buffer a GPU upload
/// expects: `width * height * 4` bytes, pixel by pixel in row-major order,
/// with no compression or conversion.
pub fn pack(weight_map: &WeightMap) -> (bytes: Vec<u8>)
    requires
        weight_map.wf(),
    ensures
        bytes@ == packed_bytes(weight_map.data@),
        bytes@.len() == 4 * (weight_map.width * weight_map.height),
{
    let mut bytes: Vec<u8> = Vec::new();
    let mut i: usize = 0;
    let pixel_count: usize = weight_map.data.len();
    while i < pixel_count
        invariant
            weight_map.wf(),
            pixel_count == weight_map.data@.len(),
            i <= pixel_count,
            bytes@.len() == 4 * i,
            forall|k: int|
                0 <= k < bytes@.len() ==> (#[trigger] bytes@[k]) == weight_map.data@[k / 4]@[k % 4],
        decreases pixel_count - i,
    {
        let pixel = weight_map.data[i];
        bytes.push(pixel[0]);
        bytes.push(pixel[1]);
        bytes.push(pixel[2]);
        bytes.push(pixel[3]);
        proof {
            lemma_fundamental_div_mod_converse(4 * i as int, 4, i as int, 0);
            lemma_fundamental_div_mod_converse(4 * i as int + 1, 4, i as int, 1);
            lemma_fundamental_div_mod_converse(4 * i as int + 2, 4, i as int, 2);
            lemma_fundamental_div_mod_converse(4 * i as int + 3, 4, i as int, 3);
        }
        i = i + 1;
    }
    proof {
        assert(bytes@ =~= packed_bytes(weight_map.data@));
    }
    bytes
}

/// Texel layout of the packed splat texture: four 8-bit unsigned normalized
/// channels per pixel, as the packing routine lays them out.
#[derive(Debug, Clone, Copy, PartialEq, Eq, Structural)]
pub enum TexelFormat {
    /// 8-bit unsigned normalized R, G, B, A.
    Rgba8Unorm,
}

/// Declared sampler addressing for the splat texture on both axes.
#[derive(Debug, Clone, Copy, PartialEq, Eq, Structural)]
pub enum AddressMode {
    /// Coordinates wrap, so adjacent terrain patches tile seamlessly under
    /// world-space UV sampling.
    Repeat,
}

/// A GPU-uploadable splat texture: the packed byte buffer together with its
/// declared dimensions, texel format and sampler addressing.
pub struct SplatTexture {
    pub width: usize,
    pub height: usize,
    pub data: Vec<u8>,
    pub format: TexelFormat,
    pub address_mode: AddressMode,
}

impl SplatTexture {
    /// The byte buffer holds exactly four bytes per declared pixel.
    pub open spec fn wf(&self) -> bool {
        self.data@.len() == 4 * (self.width * self.height)
    }
}

/// Converts a weight map into a tiling RGBA8 splat texture. Each pixel maps
/// directly: R is the layer 0 weight, G layer 1, B layer 2, A layer 3.
pub fn splat_to_image(weight_map: &WeightMap) -> (image: SplatTexture)
    requires
        weight_map.wf(),
    ensures
        image.wf(),
        image.width == weight_map.width,
        image.height == weight_map.height,
        image.data@ == packed_bytes(weight_map.data@),
        image.format == TexelFormat::Rgba8Unorm,
        image.address_mode == AddressMode::Repeat,
{
    let data = pack(weight_map);
    SplatTexture {
        width: weight_map.width,
        height: weight_map.height,
        data,
        format: TexelFormat::Rgba8Unorm,
        address_mode: AddressMode::Repeat,
    }
}

/// The current weight map of one terrain surface, together with the dirty
/// flag that marks the packed texture as stale. Mutate `weight_map`, call
/// [`GroundMaterialSettings::mark_dirty`], and the next
/// [`sync_splat_texture`] pass re-packs the texture.
pub struct GroundMaterialSettings {
    /// The current weight map data. Replace or modify to update terrain
    /// appearance, then mark the settings dirty.
    pub weight_map: WeightMap,
    dirty: bool,
}

impl GroundMaterialSettings {
    /// Whether the packed texture is stale relative to the weight map.
    pub closed spec fn is_dirty(&self) -> bool {
        self.dirty
    }

    /// The weight map these settings currently hold.
    pub closed spec fn spec_weight_map(&self) -> WeightMap {
        self.weight_map
    }

    /// Creates a new settings value from a weight map. The texture is
    /// initially stale, so the first sync pass uploads it.
    pub fn new(weight_map: WeightMap) -> (settings: Self)
        ensures
            settings.spec_weight_map() == weight_map,
            settings.is_dirty(),
    {
        GroundMaterialSettings { weight_map, dirty: true }
    }

    /// Marks the weight map as changed so the next sync pass re-packs it.
    pub fn mark_dirty(&mut self)
        ensures
            final(self).spec_weight_map() == old(self).spec_weight_map(),
            final(self).is_dirty(),
    {
        self.dirty = true;
    }
}

/// Brings the destination texture up to date with the weight map. When the
/// settings are clean this is a no-op, cheap to call every frame; when they
/// are dirty it re-packs the weight map, overwrites the texture's bytes and
/// declared dimensions, and clears the flag. Format and addressing are left
/// as declared. A destination whose GPU handle is not yet resolved must not
/// be passed here: the caller skips the pass, leaving the flag untouched, and
/// retries on the next invocation.
pub fn sync_splat_texture(settings: &mut GroundMaterialSettings, image: &mut SplatTexture)
    requires
        old(settings).spec_weight_map().wf(),
        old(image).wf(),
    ensures
        !final(settings).is_dirty(),
        final(settings).spec_weight_map() == old(settings).spec_weight_map(),
        !old(settings).is_dirty() ==> *final(settings) == *old(settings) && *final(image) == *old(
            image,
        ),
        old(settings).is_dirty() ==> final(image).width == old(settings).spec_weight_map().width
            && final(image).height == old(settings).spec_weight_map().height && final(image).data@
            == packed_bytes(old(settings).spec_weight_map().data@) && final(image).format == old(
            image,
        ).format && final(image).address_mode == old(image).address_mode,
        final(image).wf(),
{
    if !settings.dirty {
        return ;
    }
    settings.dirty = false;
    image.width = settings.weight_map.width;
    image.height = settings.weight_map.height;
    image.data = pack(&settings.weight_map);
}

} // verus!
