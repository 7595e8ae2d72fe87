//! The quad's geometry and its checked byte serialization.
//!
//! The renderer draws one quad: four corner positions of three
//! single-precision components each, and two triangles of three indices
//! each. Positions are held as the bit patterns of their components, so
//! the data and its byte image stay in integers. Uploads go to the driver
//! as explicit little-endian byte sequences; the encoding is proved to
//! round-trip with the decoder.

use vstd::prelude::*;

verus! {

/// Bit pattern of single-precision one half.
pub const HALF_BITS: u32 = 0x3F00_0000;
/// Bit pattern of single-precision negative one half.
pub const NEG_HALF_BITS: u32 = 0xBF00_0000;
/// Bit pattern of single-precision zero.
pub const ZERO_BITS: u32 = 0;

/// Number of vertices of the quad.
pub const VERTEX_COUNT: u32 = 4;
/// Number of position components per vertex.
pub const COMPONENTS_PER_VERTEX: u32 = 3;
/// Size in bytes of one single-precision component.
pub const BYTES_PER_FLOAT: u32 = 4;
/// Distance in bytes between the starts of two consecutive vertices.
pub const VERTEX_STRIDE: u32 = 12;
/// Byte offset of the position attribute inside a vertex.
pub const ATTRIBUTE_OFFSET: u32 = 0;
/// Number of indices drawn per frame: two triangles of three each.
pub const INDEX_COUNT: u32 = 6;

/// The component bit patterns of the four corners, vertex by vertex:
/// top right, bottom right, bottom left, top left, each at depth zero.
pub open spec fn vertex_words() -> Seq<u32> {
    seq![
        HALF_BITS, HALF_BITS, ZERO_BITS,
        HALF_BITS, NEG_HALF_BITS, ZERO_BITS,
        NEG_HALF_BITS, NEG_HALF_BITS, ZERO_BITS,
        NEG_HALF_BITS, HALF_BITS, ZERO_BITS,
    ]
}

/// The index triples of the two triangles, flattened.
pub open spec fn index_words() -> Seq<u32> {
    seq![0u32, 1u32, 3u32, 1u32, 2u32, 3u32]
}

/// The little-endian byte image of one 32-bit word.
pub open spec fn le_bytes(w: u32) -> Seq<u8> {
    seq![
        (w & 0xFF) as u8,
        ((w >> 8) & 0xFF) as u8,
        ((w >> 16) & 0xFF) as u8,
        ((w >> 24) & 0xFF) as u8,
    ]
}

/// The 32-bit word whose little-endian byte image is `b0 b1 b2 b3`.
pub open spec fn word_of_le(b0: u8, b1: u8, b2: u8, b3: u8) -> u32 {
    ((b0 as u32) | ((b1 as u32) << 8) | ((b2 as u32) << 16) | ((b3 as u32) << 24)) as u32
}

/// The little-endian byte image of a word sequence.
pub open spec fn words_to_bytes(ws: Seq<u32>) -> Seq<u8>
    decreases ws.len(),
{
    if ws.len() == 0 {
        Seq::empty()
    } else {
        le_bytes(ws.first()) + words_to_bytes(ws.drop_first())
    }
}

/// The words read back from a little-endian byte image, four bytes at a
/// time; a trailing fragment shorter than a word is ignored.
pub open spec fn bytes_to_words(bs: Seq<u8>) -> Seq<u32>
    decreases bs.len(),
{
    if bs.len() < 4 {
        Seq::empty()
    } else {
        seq![word_of_le(bs[0], bs[1], bs[2], bs[3])] + bytes_to_words(bs.skip(4))
    }
}

pub proof fn lemma_words_to_bytes_len(ws: Seq<u32>)
    ensures
        words_to_bytes(ws).len() == 4 * ws.len(),
    decreases ws.len(),
{
    if ws.len() > 0 {
        lemma_words_to_bytes_len(ws.drop_first());
    }
}

proof fn lemma_word_round_trip(w: u32)
    ensures
        word_of_le(
            (w & 0xFF) as u8,
            ((w >> 8) & 0xFF) as u8,
            ((w >> 16) & 0xFF) as u8,
            ((w >> 24) & 0xFF) as u8,
        ) == w,
{
    assert((((w & 0xFF) as u8 as u32) | ((((w >> 8) & 0xFF) as u8 as u32) << 8)
        | ((((w >> 16) & 0xFF) as u8 as u32) << 16) | ((((w >> 24) & 0xFF) as u8 as u32) << 24))
        as u32 == w) by (bit_vector);
}

proof fn lemma_words_to_bytes_push(ws: Seq<u32>, w: u32)
    ensures
        words_to_bytes(ws.push(w)) == words_to_bytes(ws) + le_bytes(w),
    decreases ws.len(),
{
    if ws.len() == 0 {
        assert(ws.push(w).first() == w);
        assert(ws.push(w).drop_first() =~= Seq::<u32>::empty());
        assert(words_to_bytes(Seq::<u32>::empty()) =~= Seq::<u8>::empty());
        assert(words_to_bytes(ws.push(w)) == le_bytes(w) + words_to_bytes(Seq::<u32>::empty()));
        assert(words_to_bytes(ws.push(w)) =~= words_to_bytes(ws) + le_bytes(w));
    } else {
        assert(ws.push(w).first() == ws.first());
        assert(ws.push(w).drop_first() =~= ws.drop_first().push(w));
        lemma_words_to_bytes_push(ws.drop_first(), w);
        assert(words_to_bytes(ws.push(w)) == le_bytes(ws.first()) + words_to_bytes(
            ws.drop_first().push(w),
        ));
        assert(words_to_bytes(ws.push(w)) =~= words_to_bytes(ws) + le_bytes(w));
    }
}

/// Law: the byte image of any word sequence decodes back to the same
/// words — upload and read-back of index data round-trips.
pub proof fn lemma_words_round_trip(ws: Seq<u32>)
    ensures
        bytes_to_words(words_to_bytes(ws)) == ws,
    decreases ws.len(),
{
    if ws.len() == 0 {
        assert(bytes_to_words(words_to_bytes(ws)) =~= ws);
    } else {
        let bs = words_to_bytes(ws);
        lemma_words_to_bytes_len(ws.drop_first());
        assert(bs.skip(4) =~= words_to_bytes(ws.drop_first()));
        lemma_word_round_trip(ws.first());
        assert(word_of_le(bs[0], bs[1], bs[2], bs[3]) == ws.first());
        lemma_words_round_trip(ws.drop_first());
        assert(bytes_to_words(bs) =~= ws);
    }
}

/// Law: the quad's attribute layout reads three tightly packed
/// components per vertex — the stride equals the component count times
/// the size of a float, the attribute starts at offset zero, and the
/// vertex image holds exactly `VERTEX_COUNT` vertices of
/// `VERTEX_STRIDE` bytes each.
pub proof fn lemma_attribute_layout()
    ensures
        VERTEX_STRIDE == COMPONENTS_PER_VERTEX * BYTES_PER_FLOAT,
        ATTRIBUTE_OFFSET == 0,
        vertex_words().len() == VERTEX_COUNT * COMPONENTS_PER_VERTEX,
        words_to_bytes(vertex_words()).len() == VERTEX_COUNT * VERTEX_STRIDE,
        index_words().len() == INDEX_COUNT,
        words_to_bytes(index_words()).len() == 4 * INDEX_COUNT,
{
    lemma_words_to_bytes_len(vertex_words());
    lemma_words_to_bytes_len(index_words());
}

/// The component bit patterns of the four corners, as uploadable data.
pub fn vertex_data() -> (r: Vec<u32>)
    ensures
        r@ == vertex_words(),
{
    let mut v: Vec<u32> = Vec::new();
    v.push(HALF_BITS);
    v.push(HALF_BITS);
    v.push(ZERO_BITS);
    v.push(HALF_BITS);
    v.push(NEG_HALF_BITS);
    v.push(ZERO_BITS);
    v.push(NEG_HALF_BITS);
    v.push(NEG_HALF_BITS);
    v.push(ZERO_BITS);
    v.push(NEG_HALF_BITS);
    v.push(HALF_BITS);
    v.push(ZERO_BITS);
    proof {
        assert(v@ =~= vertex_words());
    }
    v
}

/// The six indices of the two triangles, as uploadable data.
pub fn index_data() -> (r: Vec<u32>)
    ensures
        r@ == index_words(),
{
    let mut v: Vec<u32> = Vec::new();
    v.push(0);
    v.push(1);
    v.push(3);
    v.push(1);
    v.push(2);
    v.push(3);
    proof {
        assert(v@ =~= index_words());
    }
    v
}

/// Encodes a word sequence into its little-endian byte image.
pub fn encode_words(ws: &Vec<u32>) -> (r: Vec<u8>)
    ensures
        r@ == words_to_bytes(ws@),
{
    let mut out: Vec<u8> = Vec::new();
    let mut i: usize = 0;
    while i < ws.len()
        invariant
            i <= ws.len(),
            out@ == words_to_bytes(ws@.take(i as int)),
        decreases ws.len() - i,
    {
        let w = ws[i];
        proof {
            assert((w & 0xFF) < 256 && ((w >> 8) & 0xFF) < 256 && ((w >> 16) & 0xFF) < 256
                && ((w >> 24) & 0xFF) < 256) by (bit_vector);
        }
        let ghost before = out@;
        out.push((w & 0xFF) as u8);
        out.push(((w >> 8) & 0xFF) as u8);
        out.push(((w >> 16) & 0xFF) as u8);
        out.push(((w >> 24) & 0xFF) as u8);
        proof {
            assert(out@ =~= before + le_bytes(w));
            lemma_words_to_bytes_push(ws@.take(i as int), w);
            assert(ws@.take(i as int + 1) =~= ws@.take(i as int).push(w));
        }
        i = i + 1;
    }
    proof {
        assert(ws@.take(ws@.len() as int) =~= ws@);
    }
    out
}

/// Decodes a little-endian byte image back into words; a byte sequence
/// that is not a whole number of words is rejected.
pub fn decode_words(bs: &Vec<u8>) -> (r: Option<Vec<u32>>)
    ensures
        bs@.len() % 4 == 0 ==> (r matches Some(ws) && ws@ == bytes_to_words(bs@)),
        bs@.len() % 4 != 0 ==> r is None,
{
    if bs.len() % 4 != 0 {
        return None;
    }
    let mut out: Vec<u32> = Vec::new();
    let mut i: usize = 0;
    while i < bs.len()
        invariant
            i <= bs.len(),
            i % 4 == 0,
            bs@.len() % 4 == 0,
            out@ == bytes_to_words(bs@.take(i as int)),
        decreases bs.len() - i,
    {
        let b0 = bs[i];
        let b1 = bs[i + 1];
        let b2 = bs[i + 2];
        let b3 = bs[i + 3];
        let w: u32 = (b0 as u32) | ((b1 as u32) << 8) | ((b2 as u32) << 16) | ((b3 as u32) << 24);
        proof {
            let c1 = b1 as u32;
            let c2 = b2 as u32;
            let c3 = b3 as u32;
            assert((c1 << 8) <= 0xFF00 && (c2 << 16) <= 0xFF_0000 && (c3 << 24) <= 0xFF00_0000)
                by (bit_vector)
                requires c1 < 256 && c2 < 256 && c3 < 256;
        }
        out.push(w);
        proof {
            lemma_bytes_to_words_append(bs@.take(i as int), bs@.subrange(i as int, i as int + 4));
            assert(bs@.take(i as int) + bs@.subrange(i as int, i as int + 4)
                =~= bs@.take(i as int + 4));
            let piece = bs@.subrange(i as int, i as int + 4);
            assert(piece.len() == 4);
            assert(piece[0] == b0 && piece[1] == b1 && piece[2] == b2 && piece[3] == b3);
            assert(piece.skip(4) =~= Seq::<u8>::empty());
            assert(bytes_to_words(Seq::<u8>::empty()) =~= Seq::<u32>::empty());
            assert(bytes_to_words(piece) =~= seq![word_of_le(b0, b1, b2, b3)]);
            assert(out@ =~= bytes_to_words(bs@.take(i as int + 4)));
        }
        i = i + 4;
    }
    proof {
        assert(bs@.take(bs@.len() as int) =~= bs@);
    }
    Some(out)
}

proof fn lemma_bytes_to_words_append(a: Seq<u8>, b: Seq<u8>)
    requires
        a.len() % 4 == 0,
    ensures
        bytes_to_words(a + b) == bytes_to_words(a) + bytes_to_words(b),
    decreases a.len(),
{
    if a.len() == 0 {
        assert(a + b =~= b);
        assert(bytes_to_words(a + b) =~= bytes_to_words(a) + bytes_to_words(b));
    } else {
        assert((a + b).skip(4) =~= a.skip(4) + b);
        lemma_bytes_to_words_append(a.skip(4), b);
        assert(bytes_to_words(a + b) =~= bytes_to_words(a) + bytes_to_words(b));
    }
}

/// The byte image of the vertex data, as uploaded to the array buffer.
pub fn vertex_bytes() -> (r: Vec<u8>)
    ensures
        r@ == words_to_bytes(vertex_words()),
{
    let data = vertex_data();
    encode_words(&data)
}

/// The byte image of the index data, as uploaded to the element buffer.
pub fn index_bytes() -> (r: Vec<u8>)
    ensures
        r@ == words_to_bytes(index_words()),
{
    let data = index_data();
    encode_words(&data)
}

} // verus!
