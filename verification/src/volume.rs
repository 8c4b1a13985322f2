//! Volume model: raw 16-bit scan intensities, their normalized 8-bit texel
//! stream, and the fixed cube geometry that bounds the volume on the GPU.

use vstd::prelude::*;
use vstd::arithmetic::div_mod::lemma_div_is_ordered;

verus! {

/// The normalized texel for a raw intensity: linear rescale of the 12-bit
/// domain [0, 4095] onto [0, 255] with truncating division, clamped so that
/// out-of-domain inputs saturate at 255 instead of wrapping.
pub open spec fn normalize_spec(raw: u16) -> u8 {
    let scaled = (raw as int) * 255 / 4095;
    if scaled > 255 {
        255u8
    } else {
        scaled as u8
    }
}

/// Normalization is monotonic non-decreasing over the whole raw domain.
pub proof fn lemma_normalize_monotonic(raw1: u16, raw2: u16)
    requires
        raw1 <= raw2,
    ensures
        normalize_spec(raw1) <= normalize_spec(raw2),
{
    lemma_div_is_ordered((raw1 as int) * 255, (raw2 as int) * 255, 4095);
}

/// Every raw intensity above the 12-bit domain saturates at 255: the result
/// never wraps past the byte range.
pub proof fn lemma_normalize_saturates(raw: u16)
    ensures
        raw <= 4095 ==> (raw as int) * 255 / 4095 <= 255,
        raw > 4095 ==> normalize_spec(raw) == 255,
{
    if raw <= 4095 {
        lemma_div_is_ordered((raw as int) * 255, 4095int * 255, 4095);
    } else {
        lemma_div_is_ordered(4096int * 255, (raw as int) * 255, 4095);
    }
}

/// Normalizes a whole intensity stream, texel for texel, in raster order.
pub fn normalize_all(raw: &Vec<u16>) -> (r: Vec<u8>)
    ensures
        r@.len() == raw@.len(),
        forall|i: int| 0 <= i < raw@.len() ==> r@[i] == normalize_spec(raw@[i]),
{
    let mut out: Vec<u8> = Vec::new();
    let mut idx: usize = 0;
    while idx < raw.len()
        invariant
            idx <= raw@.len(),
            out@.len() == idx,
            forall|i: int| 0 <= i < idx ==> out@[i] == normalize_spec(raw@[i]),
        decreases raw@.len() - idx,
    {
        out.push(Volume::normalize_hounsfield_units(raw[idx]));
        idx = idx + 1;
    }
    out
}

/// The eight corners of the axis-aligned unit cube centered at the origin,
/// in half-unit coordinates (each component is -1 or 1, standing for -0.5 or
/// 0.5), packed as x, y, z per corner.
pub open spec fn cube_vertices_spec() -> Seq<i8> {
    seq![
        -1i8, -1i8, -1i8,
        1i8, -1i8, -1i8,
        1i8, 1i8, -1i8,
        -1i8, 1i8, -1i8,
        -1i8, -1i8, 1i8,
        1i8, -1i8, 1i8,
        1i8, 1i8, 1i8,
        -1i8, 1i8, 1i8,
    ]
}

/// The triangulation of the cube: twelve triangles, three corner indices
/// each, referencing the eight entries of the vertex list.
pub open spec fn cube_indices_spec() -> Seq<u32> {
    seq![
        0u32, 1u32, 2u32, 2u32, 3u32, 0u32,
        4u32, 5u32, 6u32, 6u32, 7u32, 4u32,
        0u32, 3u32, 7u32, 7u32, 4u32, 0u32,
        1u32, 5u32, 6u32, 6u32, 2u32, 1u32,
        0u32, 1u32, 5u32, 5u32, 4u32, 0u32,
        3u32, 2u32, 6u32, 6u32, 7u32, 3u32,
    ]
}

/// The fixed cube vertex list, independent of volume content.
pub fn cube_vertices() -> (r: Vec<i8>)
    ensures
        r@ == cube_vertices_spec(),
        r@.len() == 24,
{
    let mut v: Vec<i8> = Vec::new();
    v.push(-1); v.push(-1); v.push(-1);
    v.push(1); v.push(-1); v.push(-1);
    v.push(1); v.push(1); v.push(-1);
    v.push(-1); v.push(1); v.push(-1);
    v.push(-1); v.push(-1); v.push(1);
    v.push(1); v.push(-1); v.push(1);
    v.push(1); v.push(1); v.push(1);
    v.push(-1); v.push(1); v.push(1);
    proof {
        assert(v@ =~= cube_vertices_spec());
    }
    v
}

/// The fixed cube index list: 36 entries, each a valid offset into the
/// eight-corner vertex list.
pub fn cube_indices() -> (r: Vec<u32>)
    ensures
        r@ == cube_indices_spec(),
        r@.len() == 36,
        forall|i: int| 0 <= i < r@.len() ==> r@[i] < 8,
{
    let mut v: Vec<u32> = Vec::new();
    v.push(0); v.push(1); v.push(2); v.push(2); v.push(3); v.push(0);
    v.push(4); v.push(5); v.push(6); v.push(6); v.push(7); v.push(4);
    v.push(0); v.push(3); v.push(7); v.push(7); v.push(4); v.push(0);
    v.push(1); v.push(5); v.push(6); v.push(6); v.push(2); v.push(1);
    v.push(0); v.push(1); v.push(5); v.push(5); v.push(4); v.push(0);
    v.push(3); v.push(2); v.push(6); v.push(6); v.push(7); v.push(3);
    proof {
        assert(v@ =~= cube_indices_spec());
    }
    v
}

/// Every cube index references one of the eight cube corners.
pub proof fn lemma_cube_indices_valid()
    ensures
        cube_indices_spec().len() == 36,
        forall|i: int| 0 <= i < 36 ==> cube_indices_spec()[i] < 8,
{
}

/// A synthetic raw intensity stream for the given dimensions: a repeating
/// ramp over the 12-bit domain, so a host can exercise the pipeline without
/// scan data. Every value lies in [0, 4095].
pub fn synthetic_gradient(width: u32, height: u32, depth: u32) -> (r: Vec<u16>)
    requires
        width >= 1,
        height >= 1,
        depth >= 1,
        (width as int) * (height as int) * (depth as int) <= usize::MAX as int,
    ensures
        r@.len() == (width as int) * (height as int) * (depth as int),
        forall|i: int| 0 <= i < r@.len() ==> r@[i] == (i % 4096) as u16,
        forall|i: int| 0 <= i < r@.len() ==> r@[i] <= 4095,
{
    proof {
        assert((width as int) * (height as int) <= (width as int) * (height as int) * (
        depth as int)) by (nonlinear_arith)
            requires
                width >= 1,
                height >= 1,
                depth >= 1,
        ;
    }
    let count: usize = (width as usize) * (height as usize) * (depth as usize);
    let mut out: Vec<u16> = Vec::new();
    let mut idx: usize = 0;
    while idx < count
        invariant
            idx <= count,
            out@.len() == idx,
            forall|i: int| 0 <= i < idx ==> out@[i] == (i % 4096) as u16,
            forall|i: int| 0 <= i < idx ==> out@[i] <= 4095,
        decreases count - idx,
    {
        out.push((idx % 4096) as u16);
        idx = idx + 1;
    }
    out
}

/// A 3D scalar volume: fixed dimensions, the raw scan intensities in raster
/// order (x fastest, then y, then z), the derived 8-bit texel stream that is
/// uploaded to the GPU, and the bounding cube geometry.
pub struct Volume {
    pub width: u32,
    pub height: u32,
    pub depth: u32,
    pub raw_intensities: Vec<u16>,
    pub texture_data: Vec<u8>,
    pub vertex_data: Vec<i8>,
    pub indices: Vec<u32>,
}

impl Volume {
    /// Rescales one raw scanner intensity to the 8-bit texture range.
    pub fn normalize_hounsfield_units(raw: u16) -> (r: u8)
        ensures
            r == normalize_spec(raw),
            raw <= 4095 ==> r == (raw as int) * 255 / 4095,
            raw > 4095 ==> r == 255,
    {
        proof {
            lemma_normalize_saturates(raw);
        }
        let scaled: u32 = (raw as u32) * 255 / 4095;
        if scaled > 255 {
            255
        } else {
            scaled as u8
        }
    }

    /// Dimensions are positive, the texel stream mirrors the raw stream
    /// entry for entry under normalization, and the geometry is the fixed
    /// cube.
    pub open spec fn well_formed(self) -> bool {
        &&& self.width >= 1
        &&& self.height >= 1
        &&& self.depth >= 1
        &&& self.raw_intensities@.len() == (self.width as int) * (self.height as int) * (
        self.depth as int)
        &&& self.texture_data@.len() == self.raw_intensities@.len()
        &&& forall|i: int|
            0 <= i < self.raw_intensities@.len() ==> self.texture_data@[i] == normalize_spec(
                self.raw_intensities@[i],
            )
        &&& self.vertex_data@ == cube_vertices_spec()
        &&& self.indices@ == cube_indices_spec()
    }

    /// Builds a volume from its dimensions and raw intensity stream; the
    /// texel stream and the cube geometry are derived here, once, and are
    /// read-only thereafter.
    pub fn from_raw(width: u32, height: u32, depth: u32, raw_intensities: Vec<u16>) -> (r: Volume)
        requires
            width >= 1,
            height >= 1,
            depth >= 1,
            raw_intensities@.len() == (width as int) * (height as int) * (depth as int),
        ensures
            r.well_formed(),
            r.width == width,
            r.height == height,
            r.depth == depth,
            r.raw_intensities@ == raw_intensities@,
    {
        let texture_data = normalize_all(&raw_intensities);
        Volume {
            width,
            height,
            depth,
            raw_intensities,
            texture_data,
            vertex_data: cube_vertices(),
            indices: cube_indices(),
        }
    }

    /// How many indices the per-frame draw call covers.
    pub fn index_count(&self) -> (r: usize)
        ensures
            r == self.indices@.len(),
    {
        self.indices.len()
    }

    /// The byte image of the index list, as handed to the element buffer:
    /// four bytes per 32-bit index. When every index fits one byte, the
    /// groups carry the index values under a single machine byte order;
    /// for a well-formed volume every cube index does.
    pub fn index_buffer_bytes(&self) -> (r: Vec<u8>)
        ensures
            r@.len() == self.indices@.len() * 4,
            index_bytes_represent(self.indices@, r@),
            self.well_formed() ==> exists|p: int|
                0 <= p < 4 && #[trigger] index_bytes_match(self.indices@, r@, p),
    {
        proof {
            if self.well_formed() {
                lemma_cube_indices_valid();
                assert forall|k: int|
                    0 <= k < self.indices@.len() implies self.indices@[k] < 256 by {
                    assert(self.indices@[k] == cube_indices_spec()[k]);
                }
            }
        }
        index_bytes_raw(&self.indices)
    }
}

/// The bytes stand for the indices: whenever every index fits one byte,
/// some single byte order places each index value in its four-byte group
/// and zeroes the rest.
pub open spec fn index_bytes_represent(indices: Seq<u32>, bytes: Seq<u8>) -> bool {
    (forall|k: int| 0 <= k < indices.len() ==> indices[k] < 256) ==> exists|p: int|
        0 <= p < 4 && #[trigger] index_bytes_match(indices, bytes, p)
}

/// The byte image of an index list under one machine byte order: in each
/// four-byte group, position `p` carries the index value and the other
/// three positions are zero. Says what the bytes are only where every index
/// fits one byte.
pub open spec fn index_bytes_match(indices: Seq<u32>, bytes: Seq<u8>, p: int) -> bool {
    &&& bytes.len() == indices.len() * 4
    &&& forall|i: int|
        0 <= i < bytes.len() ==> #[trigger] bytes[i] == (if i % 4 == p {
            indices[i / 4] as u8
        } else {
            0u8
        })
}

/// Relies on bytemuck::cast_slice: reinterprets a 32-bit index slice as the
/// raw bytes of the same memory, four per index, total byte length
/// preserved. The byte order is the machine's, the same for every group: an
/// index below 256 occupies one fixed position of its group (the first on a
/// little-endian machine, the last on a big-endian one) and leaves the rest
/// zero. Never fails for this element pair, since single bytes divide any
/// slice size.
#[verifier::external_body]
fn index_bytes_raw(indices: &Vec<u32>) -> (r: Vec<u8>)
    ensures
        r@.len() == indices@.len() * 4,
        index_bytes_represent(indices@, r@),
{
    bytemuck::cast_slice(indices.as_slice()).to_vec()
}

} // verus!
