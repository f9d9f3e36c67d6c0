//! Staging data in the GPU wire format.
//!
//! These functions produce the exact bytes the scheduled copies upload:
//! vertices are 24 bytes each with the position at byte 0 and the color at
//! byte 8, indices are 4-byte unsigned words, uniforms are 64-byte
//! matrices; every word is little-endian.

use vstd::bytes::{lemma_auto_spec_u32_to_from_le_bytes, spec_u32_to_le_bytes, u32_to_le_bytes};
use vstd::prelude::*;
use crate::mesh::Vertex2D;
use crate::transform::Uniforms;

verus! {

/// The wire bytes of a list of 32-bit words, word after word,
/// little-endian.
pub open spec fn words_bytes(words: Seq<u32>) -> Seq<u8>
    decreases words.len(),
{
    if words.len() == 0 {
        Seq::empty()
    } else {
        words_bytes(words.drop_last()) + spec_u32_to_le_bytes(words.last())
    }
}

/// The 24 wire bytes of one vertex: the position at byte 0, the color at
/// byte 8.
pub open spec fn vertex_bytes(v: Vertex2D) -> Seq<u8> {
    words_bytes(v.position@) + words_bytes(v.color@)
}

/// The wire bytes of a vertex list, vertex after vertex, 24 bytes each.
pub open spec fn vertices_bytes(vertices: Seq<Vertex2D>) -> Seq<u8>
    decreases vertices.len(),
{
    if vertices.len() == 0 {
        Seq::empty()
    } else {
        vertices_bytes(vertices.drop_last()) + vertex_bytes(vertices.last())
    }
}

/// The wire bytes of a uniform list, one 64-byte matrix per element.
pub open spec fn uniforms_bytes(uniforms: Seq<Uniforms>) -> Seq<u8>
    decreases uniforms.len(),
{
    if uniforms.len() == 0 {
        Seq::empty()
    } else {
        uniforms_bytes(uniforms.drop_last()) + words_bytes(uniforms.last().transform@)
    }
}

/// A word list's wire form is four bytes per word.
pub proof fn lemma_words_bytes_len(words: Seq<u32>)
    ensures
        words_bytes(words).len() == 4 * words.len(),
    decreases words.len(),
{
    lemma_auto_spec_u32_to_from_le_bytes();
    if words.len() > 0 {
        lemma_words_bytes_len(words.drop_last());
    }
}

/// A vertex list's wire form is 24 bytes per vertex.
pub proof fn lemma_vertices_bytes_len(vertices: Seq<Vertex2D>)
    ensures
        vertices_bytes(vertices).len() == 24 * vertices.len(),
    decreases vertices.len(),
{
    if vertices.len() > 0 {
        lemma_vertices_bytes_len(vertices.drop_last());
        lemma_words_bytes_len(vertices.last().position@);
        lemma_words_bytes_len(vertices.last().color@);
    }
}

/// A uniform list's wire form is 64 bytes per element.
pub proof fn lemma_uniforms_bytes_len(uniforms: Seq<Uniforms>)
    ensures
        uniforms_bytes(uniforms).len() == 64 * uniforms.len(),
    decreases uniforms.len(),
{
    if uniforms.len() > 0 {
        lemma_uniforms_bytes_len(uniforms.drop_last());
        lemma_words_bytes_len(uniforms.last().transform@);
    }
}

/// The wire form of a two-word list, written out.
proof fn lemma_words_bytes_pair(a: u32, b: u32)
    ensures
        words_bytes(seq![a, b]) == spec_u32_to_le_bytes(a) + spec_u32_to_le_bytes(b),
{
    assert(words_bytes(Seq::<u32>::empty()) == Seq::<u8>::empty());
    assert(seq![a, b].drop_last() =~= seq![a]);
    assert(seq![a].drop_last() =~= Seq::<u32>::empty());
    assert(Seq::<u8>::empty() + spec_u32_to_le_bytes(a) =~= spec_u32_to_le_bytes(a));
    assert(words_bytes(seq![a]) =~= spec_u32_to_le_bytes(a));
    assert(words_bytes(seq![a, b]) =~= spec_u32_to_le_bytes(a) + spec_u32_to_le_bytes(b));
}

/// The wire form of a four-word list, written out.
proof fn lemma_words_bytes_quad(a: u32, b: u32, c: u32, d: u32)
    ensures
        words_bytes(seq![a, b, c, d]) == spec_u32_to_le_bytes(a) + spec_u32_to_le_bytes(b)
            + spec_u32_to_le_bytes(c) + spec_u32_to_le_bytes(d),
{
    lemma_words_bytes_pair(a, b);
    assert(seq![a, b, c].drop_last() =~= seq![a, b]);
    assert(words_bytes(seq![a, b, c]) =~= spec_u32_to_le_bytes(a) + spec_u32_to_le_bytes(b)
        + spec_u32_to_le_bytes(c));
    assert(seq![a, b, c, d].drop_last() =~= seq![a, b, c]);
    assert(words_bytes(seq![a, b, c, d]) =~= spec_u32_to_le_bytes(a) + spec_u32_to_le_bytes(b)
        + spec_u32_to_le_bytes(c) + spec_u32_to_le_bytes(d));
}

/// Appends the four little-endian bytes of `word`.
fn push_word(out: &mut Vec<u8>, word: u32)
    ensures
        final(out)@ == old(out)@ + spec_u32_to_le_bytes(word),
{
    proof {
        lemma_auto_spec_u32_to_from_le_bytes();
    }
    let bytes = u32_to_le_bytes(word);
    out.push(bytes[0]);
    out.push(bytes[1]);
    out.push(bytes[2]);
    out.push(bytes[3]);
    proof {
        assert(out@ =~= old(out)@ + spec_u32_to_le_bytes(word));
    }
}

/// Stages a vertex list in wire form: 24 bytes per vertex, the position at
/// byte 0 and the color at byte 8 of each.
pub fn encode_vertices(vertices: &Vec<Vertex2D>) -> (r: Vec<u8>)
    ensures
        r@ == vertices_bytes(vertices@),
        r@.len() == 24 * vertices@.len(),
{
    let mut out: Vec<u8> = Vec::new();
    let mut i: usize = 0;
    while i < vertices.len()
        invariant
            i <= vertices@.len(),
            out@ == vertices_bytes(vertices@.take(i as int)),
        decreases vertices@.len() - i,
    {
        let v = &vertices[i];
        push_word(&mut out, v.position[0]);
        push_word(&mut out, v.position[1]);
        push_word(&mut out, v.color[0]);
        push_word(&mut out, v.color[1]);
        push_word(&mut out, v.color[2]);
        push_word(&mut out, v.color[3]);
        proof {
            let v_i = vertices@[i as int];
            assert(v_i.position@ =~= seq![v_i.position@[0], v_i.position@[1]]);
            assert(v_i.color@ =~= seq![v_i.color@[0], v_i.color@[1], v_i.color@[2], v_i.color@[3]]);
            lemma_words_bytes_pair(v_i.position@[0], v_i.position@[1]);
            lemma_words_bytes_quad(v_i.color@[0], v_i.color@[1], v_i.color@[2], v_i.color@[3]);
            let taken = vertices@.take(i + 1);
            assert(taken.drop_last() =~= vertices@.take(i as int));
            assert(out@ =~= vertices_bytes(vertices@.take(i + 1)));
        }
        i = i + 1;
    }
    proof {
        assert(vertices@.take(vertices@.len() as int) =~= vertices@);
        lemma_vertices_bytes_len(vertices@);
    }
    out
}

/// Stages an index list in wire form: one little-endian 4-byte word per
/// index.
pub fn encode_indices(indices: &Vec<u32>) -> (r: Vec<u8>)
    ensures
        r@ == words_bytes(indices@),
        r@.len() == 4 * indices@.len(),
{
    let mut out: Vec<u8> = Vec::new();
    let mut i: usize = 0;
    while i < indices.len()
        invariant
            i <= indices@.len(),
            out@ == words_bytes(indices@.take(i as int)),
        decreases indices@.len() - i,
    {
        push_word(&mut out, indices[i]);
        proof {
            let taken = indices@.take(i + 1);
            assert(taken.drop_last() =~= indices@.take(i as int));
            assert(out@ =~= words_bytes(indices@.take(i + 1)));
        }
        i = i + 1;
    }
    proof {
        assert(indices@.take(indices@.len() as int) =~= indices@);
        lemma_words_bytes_len(indices@);
    }
    out
}

/// Stages the frame's uniform array in wire form: one 64-byte column-major
/// matrix per element, little-endian words.
pub fn encode_uniforms(uniforms: &Vec<Uniforms>) -> (r: Vec<u8>)
    ensures
        r@ == uniforms_bytes(uniforms@),
        r@.len() == 64 * uniforms@.len(),
{
    let mut out: Vec<u8> = Vec::new();
    let mut i: usize = 0;
    while i < uniforms.len()
        invariant
            i <= uniforms@.len(),
            out@ == uniforms_bytes(uniforms@.take(i as int)),
        decreases uniforms@.len() - i,
    {
        let u = &uniforms[i];
        let mut k: usize = 0;
        while k < 16
            invariant
                k <= 16,
                u == &uniforms@[i as int],
                i < uniforms@.len(),
                out@ == uniforms_bytes(uniforms@.take(i as int)) + words_bytes(
                    u.transform@.take(k as int),
                ),
            decreases 16 - k,
        {
            push_word(&mut out, u.transform[k]);
            proof {
                let taken = u.transform@.take(k + 1);
                assert(taken.drop_last() =~= u.transform@.take(k as int));
                assert(out@ =~= uniforms_bytes(uniforms@.take(i as int)) + words_bytes(
                    u.transform@.take(k + 1),
                ));
            }
            k = k + 1;
        }
        proof {
            assert(u.transform@.take(16) =~= u.transform@);
            let taken = uniforms@.take(i + 1);
            assert(taken.drop_last() =~= uniforms@.take(i as int));
            assert(out@ =~= uniforms_bytes(uniforms@.take(i + 1)));
        }
        i = i + 1;
    }
    proof {
        assert(uniforms@.take(uniforms@.len() as int) =~= uniforms@);
        lemma_uniforms_bytes_len(uniforms@);
    }
    out
}

} // verus!
