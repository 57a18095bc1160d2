//! Row-major scalar grids and their raw byte encodings.
//!
//! A texture stores one 32-bit word per cell — the bit pattern of the scalar
//! the rendering side reads — in row-major order. The verified core treats
//! the words as opaque bits: it indexes, bounds-checks and encodes them, and
//! leaves their arithmetic meaning to the unverified floating-point code
//! around it. Encoding interleaves the height and shadow grids into 16-byte
//! texels (height word, shadow word, eight zero bytes), each word least
//! significant byte first.

use vstd::prelude::*;

verus! {

/// The four bytes of a 32-bit word, least significant first.
pub open spec fn word_le_bytes(w: u32) -> Seq<u8> {
    seq![
        (w & 0x000000ff) as u8,
        ((w & 0x0000ff00) >> 8) as u8,
        ((w & 0x00ff0000) >> 16) as u8,
        ((w & 0xff000000) >> 24) as u8,
    ]
}

/// The 32-bit word four bytes spell, least significant first.
pub open spec fn le_word(b0: u8, b1: u8, b2: u8, b3: u8) -> u32 {
    (b0 as u32) | ((b1 as u32) << 8) | ((b2 as u32) << 16) | ((b3 as u32) << 24)
}

/// Reading back the four bytes of a word gives the word: the two encodings
/// are inverse to each other.
pub proof fn lemma_word_bytes_round_trip(w: u32)
    ensures
        le_word(
            word_le_bytes(w)[0],
            word_le_bytes(w)[1],
            word_le_bytes(w)[2],
            word_le_bytes(w)[3],
        ) == w,
{
    assert(((w & 0x000000ff) as u8 as u32) | (((w & 0x0000ff00) >> 8) as u8 as u32) << 8 | (((w
        & 0x00ff0000) >> 16) as u8 as u32) << 16 | (((w & 0xff000000) >> 24) as u8 as u32) << 24
        == w) by (bit_vector);
}

/// One 16-byte texel of the interleaved encoding: the height word, the
/// shadow word, and eight padding zeros.
pub open spec fn raw_texel_bytes(h: u32, s: u32) -> Seq<u8> {
    word_le_bytes(h) + word_le_bytes(s) + seq![0u8, 0u8, 0u8, 0u8, 0u8, 0u8, 0u8, 0u8]
}

/// The interleaved encoding of the first `n` cells of the two grids.
pub open spec fn raw_bytes(hs: Seq<u32>, ss: Seq<u32>, n: int) -> Seq<u8>
    decreases n,
{
    if n <= 0 {
        Seq::empty()
    } else {
        raw_bytes(hs, ss, n - 1) + raw_texel_bytes(hs[n - 1], ss[n - 1])
    }
}

/// The plain encoding of the first `n` cells of one grid, one word of four
/// bytes per cell.
pub open spec fn word_stream_bytes(ws: Seq<u32>, n: int) -> Seq<u8>
    decreases n,
{
    if n <= 0 {
        Seq::empty()
    } else {
        word_stream_bytes(ws, n - 1) + word_le_bytes(ws[n - 1])
    }
}

/// The byte offset of cell `(x, y)`'s texel within the interleaved stream.
pub open spec fn texel_offset(x: int, y: int, width: int) -> int {
    (y * width + x) * 16
}

/// Reads the height word of cell `(x, y)` back out of an interleaved texel
/// stream, least significant byte first.
pub fn read_height_word(data: &Vec<u8>, x: usize, y: usize, width: usize) -> (r: u32)
    requires
        (y * width + x) * 16 + 4 <= data@.len(),
        (y * width + x) * 16 + 4 <= usize::MAX,
    ensures
        r == le_word(
            data@[texel_offset(x as int, y as int, width as int)],
            data@[texel_offset(x as int, y as int, width as int) + 1],
            data@[texel_offset(x as int, y as int, width as int) + 2],
            data@[texel_offset(x as int, y as int, width as int) + 3],
        ),
{
    let i = (y * width + x) * 16;
    let b0 = data[i];
    let b1 = data[i + 1];
    let b2 = data[i + 2];
    let b3 = data[i + 3];
    (b0 as u32) | ((b1 as u32) << 8) | ((b2 as u32) << 16) | ((b3 as u32) << 24)
}

/// Overwrites the height word of cell `(x, y)` within an interleaved texel
/// stream, least significant byte first; every other byte keeps its value.
pub fn write_height_word(data: &mut Vec<u8>, x: usize, y: usize, width: usize, w: u32)
    requires
        (y * width + x) * 16 + 4 <= old(data)@.len(),
        (y * width + x) * 16 + 4 <= usize::MAX,
    ensures
        final(data)@.len() == old(data)@.len(),
        forall|j: int|
            0 <= j < old(data)@.len() && !(texel_offset(x as int, y as int, width as int) <= j
                < texel_offset(x as int, y as int, width as int) + 4) ==> final(data)@[j] == old(
                data,
            )@[j],
        forall|k: int|
            0 <= k < 4 ==> final(data)@[texel_offset(x as int, y as int, width as int) + k]
                == word_le_bytes(w)[k],
{
    let i = (y * width + x) * 16;
    data.set(i, #[verifier::truncate] ((w & 0x000000ff) as u8));
    data.set(i + 1, #[verifier::truncate] (((w & 0x0000ff00) >> 8) as u8));
    data.set(i + 2, #[verifier::truncate] (((w & 0x00ff0000) >> 16) as u8));
    data.set(i + 3, #[verifier::truncate] (((w & 0xff000000) >> 24) as u8));
}

/// A row-major grid of 32-bit words. Its view is the word sequence.
#[derive(Debug)]
pub struct MountainTexture {
    data: Vec<u32>,
    width: u32,
}

impl View for MountainTexture {
    type V = Seq<u32>;

    closed spec fn view(&self) -> Seq<u32> {
        self.data@
    }
}

impl MountainTexture {
    /// A positive width, and exactly whole rows.
    pub closed spec fn wf(self) -> bool {
        &&& self.width >= 1
        &&& self.data@.len() % (self.width as nat) == 0
        &&& self.data@.len() <= u32::MAX
    }

    /// The stored width.
    pub closed spec fn spec_width(self) -> u32 {
        self.width
    }

    /// The number of whole rows the grid holds.
    pub open spec fn spec_height(self) -> nat {
        self@.len() / (self.spec_width() as nat)
    }

    /// An all-zero grid of the given dimensions. (The zero word is also the
    /// bit pattern of the scalar zero.)
    pub fn new(width: u32, height: u32) -> (r: Self)
        requires
            width >= 1,
            width * height <= u32::MAX,
        ensures
            r.wf(),
            r.spec_width() == width,
            r.spec_height() == height,
            r@ == Seq::new((width * height) as nat, |i: int| 0u32),
    {
        let len = (width as usize) * (height as usize);
        let mut data: Vec<u32> = Vec::new();
        let mut i: usize = 0;
        while i < len
            invariant
                data@.len() == i,
                i <= len,
                forall|j: int| 0 <= j < i ==> data@[j] == 0u32,
            decreases len - i,
        {
            data.push(0);
            i = i + 1;
        }
        let r = MountainTexture { data, width };
        proof {
            assert(r@ =~= Seq::new((width * height) as nat, |i: int| 0u32));
            assert((width * height) as nat % (width as nat) == 0 && (width * height) as nat / (
            width as nat) == height) by (nonlinear_arith)
                requires
                    width >= 1,
            ;
        }
        r
    }

    /// The grid's width in cells.
    pub fn width(&self) -> (r: u32)
        ensures
            r == self.spec_width(),
    {
        self.width
    }

    /// The grid's height in whole rows.
    pub fn height(&self) -> (r: u32)
        requires
            self.wf(),
        ensures
            r == self.spec_height(),
    {
        proof {
            assert(self.data@.len() as u32 / self.width == self.data@.len() / (
            self.width as nat)) by (nonlinear_arith)
                requires
                    self.width >= 1,
                    self.data@.len() <= u32::MAX,
            ;
        }
        (self.data.len() as u32) / self.width
    }

    /// The number of cells.
    pub fn size(&self) -> (r: usize)
        ensures
            r == self@.len(),
    {
        self.data.len()
    }

    /// The word at column `x` of row `y`.
    pub fn get(&self, x: u32, y: u32) -> (r: u32)
        requires
            self.wf(),
            x < self.spec_width(),
            y < self.spec_height(),
        ensures
            r == self@[y * self.spec_width() + x],
    {
        proof {
            lemma_row_major_index_in_bounds(
                x as int,
                y as int,
                self.width as int,
                self.data@.len() as int,
            );
        }
        let idx = (y as usize) * (self.width as usize) + (x as usize);
        self.data[idx]
    }

    /// Replaces the word at column `x` of row `y`; every other cell keeps its
    /// word.
    pub fn set(&mut self, x: u32, y: u32, w: u32)
        requires
            old(self).wf(),
            x < old(self).spec_width(),
            y < old(self).spec_height(),
        ensures
            final(self).wf(),
            final(self).spec_width() == old(self).spec_width(),
            final(self).spec_height() == old(self).spec_height(),
            final(self)@ == old(self)@.update(y * old(self).spec_width() + x, w),
    {
        proof {
            lemma_row_major_index_in_bounds(
                x as int,
                y as int,
                self.width as int,
                self.data@.len() as int,
            );
        }
        let idx = (y as usize) * (self.width as usize) + (x as usize);
        self.data.set(idx, w);
    }

    /// The word at column `x` of row `y`, with both coordinates clamped to
    /// the grid's edges: boundary sampling never wraps and never fails.
    pub fn get_clamped(&self, x: u32, y: u32) -> (r: u32)
        requires
            self.wf(),
            self@.len() > 0,
        ensures
            r == self@[spec_clamp(y as int, self.spec_height() as int) * self.spec_width()
                + spec_clamp(x as int, self.spec_width() as int)],
    {
        proof {
            assert(self.spec_height() > 0) by (nonlinear_arith)
                requires
                    self@.len() > 0,
                    self.spec_height() == self@.len() / (self.spec_width() as nat),
                    self@.len() % (self.spec_width() as nat) == 0,
                    self.spec_width() >= 1,
            ;
        }
        let cx = if x < self.width {
            x
        } else {
            self.width - 1
        };
        let h = self.height();
        let cy = if y < h {
            y
        } else {
            h - 1
        };
        self.get(cx, cy)
    }

    /// The word at a flat row-major index, or nothing when the index is out
    /// of bounds — the edge-clamping callers test before they read.
    pub fn get_index(&self, i: usize) -> (r: Option<u32>)
        ensures
            i < self@.len() ==> r == Some(self@[i as int]),
            i >= self@.len() ==> r is None,
    {
        if i < self.data.len() {
            Some(self.data[i])
        } else {
            None
        }
    }

    /// Replaces the word at a flat row-major index; an out-of-bounds index
    /// changes nothing, as the bounds-checked erosion writes demand.
    pub fn set_index(&mut self, i: usize, w: u32)
        ensures
            final(self).spec_width() == old(self).spec_width(),
            i < old(self)@.len() ==> final(self)@ == old(self)@.update(i as int, w),
            i >= old(self)@.len() ==> final(self)@ == old(self)@,
    {
        if i < self.data.len() {
            self.data.set(i, w);
        }
    }

    /// Encodes the grid as a byte stream, four bytes per cell, least
    /// significant byte first.
    pub fn to_bytes(&self) -> (r: Vec<u8>)
        ensures
            r@ == word_stream_bytes(self@, self@.len() as int),
    {
        let mut bytes: Vec<u8> = Vec::new();
        let mut i: usize = 0;
        while i < self.data.len()
            invariant
                i <= self.data@.len(),
                bytes@ == word_stream_bytes(self.data@, i as int),
            decreases self.data@.len() - i,
        {
            let w = self.data[i];
            bytes.push((w & 0x000000ff) as u8);
            bytes.push(((w & 0x0000ff00) >> 8) as u8);
            bytes.push(((w & 0x00ff0000) >> 16) as u8);
            bytes.push(((w & 0xff000000) >> 24) as u8);
            proof {
                assert(bytes@ =~= word_stream_bytes(self.data@, i as int + 1));
            }
            i = i + 1;
        }
        bytes
    }
}

/// A coordinate clamped to a grid extent: itself when inside, the last cell
/// when beyond the edge.
pub open spec fn spec_clamp(v: int, extent: int) -> int {
    if v < extent {
        v
    } else {
        extent - 1
    }
}

/// A row-major index within a whole-rows grid is within the data.
proof fn lemma_row_major_index_in_bounds(x: int, y: int, width: int, len: int)
    requires
        width >= 1,
        len % width == 0,
        0 <= x < width,
        0 <= y < len / width,
    ensures
        0 <= y * width + x < len,
        y * width + x <= len,
{
    assert(y * width + x < len) by (nonlinear_arith)
        requires
            width >= 1,
            len % width == 0,
            0 <= x < width,
            0 <= y < len / width,
    ;
    assert(y * width >= 0) by (nonlinear_arith)
        requires
            y >= 0,
            width >= 1,
    ;
}

/// The height grid and the shadow grid, always of the same dimensions.
#[derive(Debug)]
pub struct MountainTextures {
    pub heightmap: MountainTexture,
    pub shadowmap: MountainTexture,
}

impl MountainTextures {
    /// Both grids are well formed and congruent.
    pub open spec fn wf(self) -> bool {
        &&& self.heightmap.wf()
        &&& self.shadowmap.wf()
        &&& self.heightmap.spec_width() == self.shadowmap.spec_width()
        &&& self.heightmap@.len() == self.shadowmap@.len()
    }

    /// Two congruent all-zero grids.
    pub fn new(width: u32, height: u32) -> (r: Self)
        requires
            width >= 1,
            width * height <= u32::MAX,
        ensures
            r.wf(),
            r.heightmap.spec_width() == width,
            r.heightmap.spec_height() == height,
            r.heightmap@ == Seq::new((width * height) as nat, |i: int| 0u32),
            r.shadowmap@ == Seq::new((width * height) as nat, |i: int| 0u32),
    {
        MountainTextures {
            heightmap: MountainTexture::new(width, height),
            shadowmap: MountainTexture::new(width, height),
        }
    }

    /// Encodes both grids into one interleaved byte stream: per cell the
    /// height word, the shadow word, and eight zero bytes.
    pub fn into_raw(self) -> (r: Vec<u8>)
        requires
            self.wf(),
        ensures
            r@ == raw_bytes(self.heightmap@, self.shadowmap@, self.heightmap@.len() as int),
    {
        let n = self.heightmap.size();
        let mut bytes: Vec<u8> = Vec::new();
        let mut i: usize = 0;
        while i < n
            invariant
                self.wf(),
                n == self.heightmap@.len(),
                i <= n,
                bytes@ == raw_bytes(self.heightmap@, self.shadowmap@, i as int),
            decreases n - i,
        {
            let h = match self.heightmap.get_index(i) {
                Some(w) => w,
                None => 0,
            };
            let s = match self.shadowmap.get_index(i) {
                Some(w) => w,
                None => 0,
            };
            bytes.push((h & 0x000000ff) as u8);
            bytes.push(((h & 0x0000ff00) >> 8) as u8);
            bytes.push(((h & 0x00ff0000) >> 16) as u8);
            bytes.push(((h & 0xff000000) >> 24) as u8);
            bytes.push((s & 0x000000ff) as u8);
            bytes.push(((s & 0x0000ff00) >> 8) as u8);
            bytes.push(((s & 0x00ff0000) >> 16) as u8);
            bytes.push(((s & 0xff000000) >> 24) as u8);
            bytes.push(0);
            bytes.push(0);
            bytes.push(0);
            bytes.push(0);
            bytes.push(0);
            bytes.push(0);
            bytes.push(0);
            bytes.push(0);
            proof {
                assert(bytes@ =~= raw_bytes(
                    self.heightmap@,
                    self.shadowmap@,
                    i as int + 1,
                ));
            }
            i = i + 1;
        }
        bytes
    }
}

/// The interleaved encoding of `n` cells is `16 * n` bytes long.
pub proof fn lemma_raw_bytes_len(hs: Seq<u32>, ss: Seq<u32>, n: int)
    requires
        n >= 0,
    ensures
        raw_bytes(hs, ss, n).len() == 16 * n,
    decreases n,
{
    if n > 0 {
        lemma_raw_bytes_len(hs, ss, n - 1);
    }
}

/// Byte `k` of cell `i`'s texel within the encoding of `n` cells is byte `k`
/// of that cell's own texel.
proof fn lemma_raw_bytes_texel(hs: Seq<u32>, ss: Seq<u32>, n: int, i: int, k: int)
    requires
        0 <= i < n,
        0 <= k < 16,
    ensures
        raw_bytes(hs, ss, n).len() == 16 * n,
        raw_bytes(hs, ss, n)[16 * i + k] == raw_texel_bytes(hs[i], ss[i])[k],
    decreases n,
{
    lemma_raw_bytes_len(hs, ss, n);
    lemma_raw_bytes_len(hs, ss, n - 1);
    if i < n - 1 {
        lemma_raw_bytes_texel(hs, ss, n - 1, i, k);
    }
}

/// Reading a cell's height and shadow words back out of the interleaved
/// stream gives exactly the words the two grids held: the encoding loses
/// nothing.
#[verifier::rlimit(50)]
pub proof fn lemma_raw_stream_round_trip(hs: Seq<u32>, ss: Seq<u32>, n: int, i: int)
    requires
        0 <= i < n,
        n <= hs.len(),
        n <= ss.len(),
    ensures
        le_word(
            raw_bytes(hs, ss, n)[16 * i],
            raw_bytes(hs, ss, n)[16 * i + 1],
            raw_bytes(hs, ss, n)[16 * i + 2],
            raw_bytes(hs, ss, n)[16 * i + 3],
        ) == hs[i],
        le_word(
            raw_bytes(hs, ss, n)[16 * i + 4],
            raw_bytes(hs, ss, n)[16 * i + 5],
            raw_bytes(hs, ss, n)[16 * i + 6],
            raw_bytes(hs, ss, n)[16 * i + 7],
        ) == ss[i],
{
    lemma_raw_bytes_texel(hs, ss, n, i, 0);
    lemma_raw_bytes_texel(hs, ss, n, i, 1);
    lemma_raw_bytes_texel(hs, ss, n, i, 2);
    lemma_raw_bytes_texel(hs, ss, n, i, 3);
    lemma_raw_bytes_texel(hs, ss, n, i, 4);
    lemma_raw_bytes_texel(hs, ss, n, i, 5);
    lemma_raw_bytes_texel(hs, ss, n, i, 6);
    lemma_raw_bytes_texel(hs, ss, n, i, 7);
    assert(raw_texel_bytes(hs[i], ss[i])[0] == word_le_bytes(hs[i])[0]);
    assert(raw_texel_bytes(hs[i], ss[i])[1] == word_le_bytes(hs[i])[1]);
    assert(raw_texel_bytes(hs[i], ss[i])[2] == word_le_bytes(hs[i])[2]);
    assert(raw_texel_bytes(hs[i], ss[i])[3] == word_le_bytes(hs[i])[3]);
    assert(raw_texel_bytes(hs[i], ss[i])[4] == word_le_bytes(ss[i])[0]);
    assert(raw_texel_bytes(hs[i], ss[i])[5] == word_le_bytes(ss[i])[1]);
    assert(raw_texel_bytes(hs[i], ss[i])[6] == word_le_bytes(ss[i])[2]);
    assert(raw_texel_bytes(hs[i], ss[i])[7] == word_le_bytes(ss[i])[3]);
    lemma_word_bytes_round_trip(hs[i]);
    lemma_word_bytes_round_trip(ss[i]);
}

} // verus!
