//! The per-vertex record handed to the GPU: its field layout, the vertex
//! attributes derived from it, and its little-endian byte image.
use vstd::prelude::*;

verus! {

/// Byte offset of the position field.
pub const POSITION_OFFSET: u64 = 0;

/// Byte offset of the normal field.
pub const NORMAL_OFFSET: u64 = 12;

/// Byte offset of the texture-coordinate field.
pub const UV_OFFSET: u64 = 24;

/// Byte offset of the model-index field.
pub const MODEL_INDEX_OFFSET: u64 = 32;

/// Size in bytes of one record, with no padding.
pub const VERTEX_STRIDE: u64 = 36;

/// Number of 32-bit words in one record.
pub const RECORD_WORDS: usize = 9;

/// One vertex: position, normal and texture coordinate as single-precision
/// bit patterns, then the index of the model that owns it.
#[derive(Clone, Copy, Debug, PartialEq)]
pub struct VertexData {
    pub position: [u32; 3],
    pub normal: [u32; 3],
    pub uv: [u32; 2],
    pub model_idx: u32,
}

/// Data format of one vertex attribute.
#[derive(Clone, Copy, Debug, PartialEq, Eq, Structural)]
pub enum VertexFormat {
    Float32x3,
    Float32x2,
    Uint32,
}

/// One attribute of the vertex buffer layout.
#[derive(Clone, Copy, Debug, PartialEq, Eq, Structural)]
pub struct VertexAttribute {
    pub format: VertexFormat,
    pub offset: u64,
    pub shader_location: u32,
}

/// Width in bytes of a format.
pub open spec fn format_size(f: VertexFormat) -> nat {
    match f {
        VertexFormat::Float32x3 => 12,
        VertexFormat::Float32x2 => 8,
        VertexFormat::Uint32 => 4,
    }
}

/// The fields of a record in order, with their formats.
pub open spec fn record_formats() -> Seq<VertexFormat> {
    seq![VertexFormat::Float32x3, VertexFormat::Float32x3, VertexFormat::Float32x2, VertexFormat::Uint32]
}

/// Sum of the widths of the first `n` formats of `fs`.
pub open spec fn offset_of(fs: Seq<VertexFormat>, n: nat) -> nat
    decreases n,
{
    if n == 0 || n > fs.len() {
        0
    } else {
        offset_of(fs, (n - 1) as nat) + format_size(fs[n - 1])
    }
}

/// The words of a record, in field order.
pub open spec fn record_words(v: VertexData) -> Seq<u32> {
    v.position@ + v.normal@ + v.uv@ + seq![v.model_idx]
}

/// Little-endian bytes of one word.
#[verifier::opaque]
pub open spec fn le_bytes(w: u32) -> Seq<u8> {
    seq![(w & 0xff) as u8, ((w >> 8u32) & 0xff) as u8, ((w >> 16u32) & 0xff) as u8, (w >> 24u32) as u8]
}

/// The word whose little-endian bytes are `b0..b3`.
#[verifier::opaque]
pub open spec fn le_word(b0: u8, b1: u8, b2: u8, b3: u8) -> u32 {
    (b0 as u32) | ((b1 as u32) << 8u32) | ((b2 as u32) << 16u32) | ((b3 as u32) << 24u32)
}

/// Little-endian bytes of a word sequence, four per word.
pub open spec fn words_le(ws: Seq<u32>) -> Seq<u8> {
    Seq::new(4 * ws.len(), |j: int| le_bytes(ws[j / 4])[j % 4])
}

/// The byte image of a record.
pub open spec fn record_bytes(v: VertexData) -> Seq<u8> {
    words_le(record_words(v))
}

/// The byte images of records, one after another.
pub open spec fn records_bytes(vs: Seq<VertexData>) -> Seq<u8>
    decreases vs.len(),
{
    if vs.len() == 0 {
        seq![]
    } else {
        records_bytes(vs.drop_last()) + record_bytes(vs.last())
    }
}

proof fn lemma_le_round_trip(w: u32)
    ensures
        le_word(le_bytes(w)[0], le_bytes(w)[1], le_bytes(w)[2], le_bytes(w)[3]) == w,
{
    reveal(le_word);
    reveal(le_bytes);
    assert(((w & 0xff) as u8 as u32) | ((((w >> 8u32) & 0xff) as u8 as u32) << 8u32) | ((((w
        >> 16u32) & 0xff) as u8 as u32) << 16u32) | (((w >> 24u32) as u8 as u32) << 24u32) == w)
        by (bit_vector);
}

fn word_bytes(w: u32) -> (r: [u8; 4])
    ensures
        r@ == le_bytes(w),
{
    reveal(le_bytes);
    let r = [(w & 0xff) as u8, ((w >> 8) & 0xff) as u8, ((w >> 16) & 0xff) as u8, (w >> 24) as u8];
    assert(r@ =~= le_bytes(w));
    r
}

/// Appends the little-endian bytes of `ws` to `out`.
pub fn push_words_le(out: &mut Vec<u8>, ws: &[u32])
    requires
        old(out).len() + 4 * ws@.len() <= usize::MAX,
    ensures
        final(out)@ == old(out)@ + words_le(ws@),
{
    let ghost start = out@;
    let mut i: usize = 0;
    while i < ws.len()
        invariant
            i <= ws@.len(),
            start.len() + 4 * ws@.len() <= usize::MAX,
            out@ == start + words_le(ws@.subrange(0, i as int)),
        decreases ws@.len() - i,
    {
        let b = word_bytes(ws[i]);
        out.push(b[0]);
        out.push(b[1]);
        out.push(b[2]);
        out.push(b[3]);
        i = i + 1;
        assert(words_le(ws@.subrange(0, i as int)) =~= words_le(ws@.subrange(0, i - 1)) + le_bytes(
            ws@[i - 1],
        ));
    }
    assert(ws@.subrange(0, ws@.len() as int) =~= ws@);
}

/// The contents of a vertex buffer: the byte images of `vs` in order.
pub fn vertex_buffer_bytes(vs: &Vec<VertexData>) -> (r: Vec<u8>)
    requires
        VERTEX_STRIDE * vs@.len() <= usize::MAX,
    ensures
        r@ == records_bytes(vs@),
        r@.len() == VERTEX_STRIDE * vs@.len(),
{
    let mut out: Vec<u8> = Vec::new();
    let mut i: usize = 0;
    while i < vs.len()
        invariant
            i <= vs@.len(),
            VERTEX_STRIDE * vs@.len() <= usize::MAX,
            out@ == records_bytes(vs@.subrange(0, i as int)),
            out@.len() == VERTEX_STRIDE * i,
        decreases vs@.len() - i,
    {
        let words = vs[i].words();
        push_words_le(&mut out, words.as_slice());
        assert(vs@.subrange(0, i + 1).drop_last() =~= vs@.subrange(0, i as int));
        i = i + 1;
    }
    assert(vs@.subrange(0, vs@.len() as int) =~= vs@);
    out
}

/// The contents of an index buffer: each index little-endian.
pub fn index_buffer_bytes(indices: &Vec<u32>) -> (r: Vec<u8>)
    requires
        4 * indices@.len() <= usize::MAX,
    ensures
        r@ == words_le(indices@),
{
    let mut out: Vec<u8> = Vec::new();
    push_words_le(&mut out, indices.as_slice());
    assert(out@ =~= words_le(indices@));
    out
}

impl VertexData {
    /// The record's words in field order.
    pub fn words(&self) -> (r: [u32; 9])
        ensures
            r@ == record_words(*self),
    {
        let r: [u32; 9] = [
            self.position[0],
            self.position[1],
            self.position[2],
            self.normal[0],
            self.normal[1],
            self.normal[2],
            self.uv[0],
            self.uv[1],
            self.model_idx,
        ];
        assert(r@ =~= record_words(*self));
        r
    }

    /// The record's byte image: position, normal, uv, model index, each word
    /// little-endian, 36 bytes with no padding.
    pub fn to_bytes(&self) -> (r: Vec<u8>)
        ensures
            r@ == record_bytes(*self),
            r@.len() == VERTEX_STRIDE,
    {
        let mut out: Vec<u8> = Vec::new();
        let words = self.words();
        push_words_le(&mut out, words.as_slice());
        assert(out@ =~= record_bytes(*self));
        out
    }

    /// Reads a record back from its byte image; `None` unless `b` holds
    /// exactly one record.
    pub fn from_bytes(b: &[u8]) -> (r: Option<VertexData>)
        ensures
            r is Some <==> b@.len() == VERTEX_STRIDE,
            r is Some ==> forall|i: int|
                0 <= i < RECORD_WORDS ==> #[trigger] record_words(r->0)[i] == le_word(
                    b@[4 * i],
                    b@[4 * i + 1],
                    b@[4 * i + 2],
                    b@[4 * i + 3],
                ),
            forall|v: VertexData| #[trigger] record_bytes(v) == b@ ==> r == Some(v),
    {
        if b.len() != 36 {
            return None;
        }
        let mut w: [u32; 9] = [0; 9];
        let mut i: usize = 0;
        while i < 9
            invariant
                b@.len() == 36,
                i <= 9,
                w@.len() == 9,
                forall|k: int|
                    0 <= k < i ==> #[trigger] w@[k] == le_word(
                        b@[4 * k],
                        b@[4 * k + 1],
                        b@[4 * k + 2],
                        b@[4 * k + 3],
                    ),
            decreases 9 - i,
        {
            proof {
                reveal(le_word);
            }
            let x = (b[4 * i] as u32) | ((b[4 * i + 1] as u32) << 8) | ((b[4 * i + 2] as u32) << 16)
                | ((b[4 * i + 3] as u32) << 24);
            w[i] = x;
            i = i + 1;
        }
        let v = VertexData {
            position: [w[0], w[1], w[2]],
            normal: [w[3], w[4], w[5]],
            uv: [w[6], w[7]],
            model_idx: w[8],
        };
        assert(record_words(v) =~= w@);
        assert forall|u: VertexData| #[trigger] record_bytes(u) == b@ implies v == u by {
            lemma_record_round_trip(u, b@, v);
        }
        Some(v)
    }
}

proof fn lemma_quarter(j: int, n: int)
    requires
        0 <= j,
        0 <= n,
    ensures
        (j + 4 * n) / 4 == j / 4 + n,
        (j + 4 * n) % 4 == j % 4,
{
}

proof fn lemma_words_le_index(ws: Seq<u32>, i: int, k: int)
    requires
        0 <= i < ws.len(),
        0 <= k < 4,
    ensures
        words_le(ws)[4 * i + k] == le_bytes(ws[i])[k],
{
    lemma_quarter(k, i);
}

proof fn lemma_word_back(ws: Seq<u32>, i: int)
    requires
        0 <= i < ws.len(),
    ensures
        le_word(
            words_le(ws)[4 * i],
            words_le(ws)[4 * i + 1],
            words_le(ws)[4 * i + 2],
            words_le(ws)[4 * i + 3],
        ) == ws[i],
{
    lemma_words_le_index(ws, i, 0);
    lemma_words_le_index(ws, i, 1);
    lemma_words_le_index(ws, i, 2);
    lemma_words_le_index(ws, i, 3);
    lemma_le_round_trip(ws[i]);
}

/// Bytes of concatenated words are the concatenated bytes.
proof fn lemma_words_le_append(a: Seq<u32>, b: Seq<u32>)
    ensures
        words_le(a + b) == words_le(a) + words_le(b),
{
    assert forall|j: int| 0 <= j < 4 * (a.len() + b.len()) implies #[trigger] words_le(a + b)[j]
        == (words_le(a) + words_le(b))[j] by {
        if j >= 4 * a.len() {
            lemma_quarter(j - 4 * a.len(), a.len() as int);
        }
    }
    assert(words_le(a + b) =~= words_le(a) + words_le(b));
}

/// Reading back the byte image of a record gives the record.
pub proof fn lemma_record_round_trip(v: VertexData, b: Seq<u8>, back: VertexData)
    requires
        b == record_bytes(v),
        forall|i: int|
            0 <= i < RECORD_WORDS ==> #[trigger] record_words(back)[i] == le_word(
                b[4 * i],
                b[4 * i + 1],
                b[4 * i + 2],
                b[4 * i + 3],
            ),
    ensures
        back == v,
{
    let ws = record_words(v);
    assert forall|i: int| 0 <= i < RECORD_WORDS implies record_words(back)[i] == ws[i] by {
        lemma_word_back(ws, i);
    }
    assert(record_words(back) =~= ws);
    lemma_record_words_injective(back, v);
}

/// A record is determined by its words.
proof fn lemma_record_words_injective(a: VertexData, b: VertexData)
    requires
        record_words(a) == record_words(b),
    ensures
        a == b,
{
    let wa = record_words(a);
    let wb = record_words(b);
    assert(a.position@ =~= b.position@) by {
        assert(wa[0] == wb[0] && wa[1] == wb[1] && wa[2] == wb[2]);
    }
    assert(a.normal@ =~= b.normal@) by {
        assert(wa[3] == wb[3] && wa[4] == wb[4] && wa[5] == wb[5]);
    }
    assert(a.uv@ =~= b.uv@) by {
        assert(wa[6] == wb[6] && wa[7] == wb[7]);
    }
    assert(wa[8] == wb[8]);
    assert(a.position =~= b.position);
    assert(a.normal =~= b.normal);
    assert(a.uv =~= b.uv);
}

/// The byte image of a record is 36 bytes long, and each field occupies the
/// bytes from its offset to the next field's offset.
pub proof fn lemma_record_layout(v: VertexData)
    ensures
        record_bytes(v).len() == VERTEX_STRIDE,
        record_bytes(v).subrange(POSITION_OFFSET as int, NORMAL_OFFSET as int) == words_le(v.position@),
        record_bytes(v).subrange(NORMAL_OFFSET as int, UV_OFFSET as int) == words_le(v.normal@),
        record_bytes(v).subrange(UV_OFFSET as int, MODEL_INDEX_OFFSET as int) == words_le(v.uv@),
        record_bytes(v).subrange(MODEL_INDEX_OFFSET as int, VERTEX_STRIDE as int) == le_bytes(
            v.model_idx,
        ),
{
    let b = record_bytes(v);
    let p = v.position@;
    let n = v.normal@;
    let u = v.uv@;
    let m = seq![v.model_idx];
    lemma_words_le_append(p + n + u, m);
    lemma_words_le_append(p + n, u);
    lemma_words_le_append(p, n);
    reveal(le_bytes);
    assert(words_le(m) =~= le_bytes(v.model_idx));
    assert(b.subrange(0, 12) =~= words_le(p));
    assert(b.subrange(12, 24) =~= words_le(n));
    assert(b.subrange(24, 32) =~= words_le(u));
    assert(b.subrange(32, 36) =~= le_bytes(v.model_idx));
}

/// The vertex buffer layout: one attribute per record field, at shader
/// locations 0 to 3, each at the summed width of the fields before it.
pub fn vertex_attributes() -> (r: Vec<VertexAttribute>)
    ensures
        r@.len() == 4,
        forall|i: int|
            0 <= i < 4 ==> {
                &&& (#[trigger] r@[i]).format == record_formats()[i]
                &&& r@[i].offset == offset_of(record_formats(), i as nat)
                &&& r@[i].shader_location == i
            },
        r@[0].offset == POSITION_OFFSET,
        r@[1].offset == NORMAL_OFFSET,
        r@[2].offset == UV_OFFSET,
        r@[3].offset == MODEL_INDEX_OFFSET,
        offset_of(record_formats(), 4) == VERTEX_STRIDE,
{
    reveal_with_fuel(offset_of, 5);
    let r = vec![
        VertexAttribute { format: VertexFormat::Float32x3, offset: POSITION_OFFSET, shader_location: 0 },
        VertexAttribute { format: VertexFormat::Float32x3, offset: NORMAL_OFFSET, shader_location: 1 },
        VertexAttribute { format: VertexFormat::Float32x2, offset: UV_OFFSET, shader_location: 2 },
        VertexAttribute { format: VertexFormat::Uint32, offset: MODEL_INDEX_OFFSET, shader_location: 3 },
    ];
    assert(offset_of(record_formats(), 1) == 12);
    assert(offset_of(record_formats(), 2) == 24);
    assert(offset_of(record_formats(), 3) == 32);
    assert(offset_of(record_formats(), 4) == 36);
    r
}

} // verus!
