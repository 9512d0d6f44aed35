//! The bytes that go into the two mesh buffers.
//!
//! The index buffer holds the index table, sixteen bits for each entry. The
//! vertex buffer holds the corner table, each coordinate as a 32-bit float;
//! the library writes a float as the 32-bit word that encodes it.

use crate::vertex::{
    cube_vertices, vertex_layout_attributes, vertices, Vertex, INDICES, VERTEX_COUNT,
};
use vstd::prelude::*;

verus! {

/// The 16-bit word that two bytes in memory hold, the less significant byte
/// first if `little_endian` and last otherwise.
pub open spec fn word_from_bytes(first: u8, second: u8, little_endian: bool) -> int {
    if little_endian {
        first + 256 * second
    } else {
        256 * first + second
    }
}

/// `bytes` holds `words` one after another, two bytes each, in the given
/// byte order.
pub open spec fn encodes_words(bytes: Seq<u8>, words: Seq<u16>, little_endian: bool) -> bool {
    &&& bytes.len() == 2 * words.len()
    &&& forall|i: int|
        0 <= i < words.len() ==> word_from_bytes(
            #[trigger] bytes[2 * i],
            bytes[2 * i + 1],
            little_endian,
        ) == words[i]
}

/// `bytes` is the memory image of `words` on this machine, whichever of the
/// two byte orders it has.
pub open spec fn is_memory_image(bytes: Seq<u8>, words: Seq<u16>) -> bool {
    encodes_words(bytes, words, true) || encodes_words(bytes, words, false)
}

/// The 32-bit word that four bytes in memory hold, the least significant
/// byte first if `little_endian` and last otherwise.
pub open spec fn long_word_from_bytes(
    first: u8,
    second: u8,
    third: u8,
    fourth: u8,
    little_endian: bool,
) -> int {
    if little_endian {
        first + 0x100 * second + 0x1_0000 * third + 0x100_0000 * fourth
    } else {
        0x100_0000 * first + 0x1_0000 * second + 0x100 * third + fourth
    }
}

/// `bytes` holds `words` one after another, four bytes each, in the given
/// byte order.
pub open spec fn encodes_long_words(bytes: Seq<u8>, words: Seq<u32>, little_endian: bool) -> bool {
    &&& bytes.len() == 4 * words.len()
    &&& forall|i: int|
        0 <= i < words.len() ==> long_word_from_bytes(
            #[trigger] bytes[4 * i],
            bytes[4 * i + 1],
            bytes[4 * i + 2],
            bytes[4 * i + 3],
            little_endian,
        ) == words[i]
}

/// `bytes` is the memory image of `words` on this machine, whichever of the
/// two byte orders it has.
pub open spec fn is_long_memory_image(bytes: Seq<u8>, words: Seq<u32>) -> bool {
    encodes_long_words(bytes, words, true) || encodes_long_words(bytes, words, false)
}

/// Calls `bytemuck::cast_slice` from `u16` to `u8` and copies what it
/// returns. Believed of it: the result is the memory that the words occupy,
/// so it has two bytes for each word, in the machine's byte order, which is
/// the same for every word. A byte has alignment 1 and size 1, so the cast
/// has no failing case.
#[verifier::external_body]
fn words_as_bytes(words: &[u16]) -> (bytes: Vec<u8>)
    ensures
        is_memory_image(bytes@, words@),
{
    let bytes: &[u8] = bytemuck::cast_slice(words);
    bytes.to_vec()
}

/// Calls `bytemuck::cast_slice` from `u32` to `u8` and copies what it
/// returns. Believed of it: the result is the memory that the words occupy,
/// so it has four bytes for each word, in the machine's byte order, which
/// is the same for every word. A byte has alignment 1 and size 1, so the
/// cast has no failing case.
#[verifier::external_body]
fn long_words_as_bytes(words: &[u32]) -> (bytes: Vec<u8>)
    ensures
        is_long_memory_image(bytes@, words@),
{
    let bytes: &[u8] = bytemuck::cast_slice(words);
    bytes.to_vec()
}

/// What the index buffer is created with: the index table as the index
/// stage reads it, 16 bits for each entry.
pub fn index_buffer_contents() -> (bytes: Vec<u8>)
    ensures
        is_memory_image(bytes@, INDICES@),
        bytes@.len() == 72,
{
    let table = INDICES;
    words_as_bytes(table.as_slice())
}

/// Number of 32-bit words that one corner occupies: three for the position
/// and two for the texture coordinate.
pub const WORDS_PER_VERTEX: usize = 5;

/// The word that encodes the grid coordinate `value` as a 32-bit float
/// (one sign bit, eight exponent bits biased by 127, 23 fraction bits).
pub open spec fn float_bits(value: int) -> u32
    recommends
        -1 <= value <= 1,
{
    if value == 1 {
        0x3f80_0000
    } else if value == -1 {
        0xbf80_0000
    } else {
        0
    }
}

/// The coordinates of `v`, position first.
pub open spec fn vertex_coordinates(v: Vertex) -> Seq<int> {
    seq![
        v.position[0] as int,
        v.position[1] as int,
        v.position[2] as int,
        v.tex_coords[0] as int,
        v.tex_coords[1] as int,
    ]
}

/// Every coordinate of `v` is `-1`, `0` or `1`.
pub open spec fn on_grid(v: Vertex) -> bool {
    forall|k: int| 0 <= k < WORDS_PER_VERTEX ==> -1 <= #[trigger] vertex_coordinates(v)[k] <= 1
}

/// The words of the vertex buffer that holds `table`: corner after corner,
/// each with its coordinates in order.
pub open spec fn vertex_words(table: Seq<Vertex>) -> Seq<u32> {
    Seq::new(
        WORDS_PER_VERTEX as nat * table.len(),
        |i: int|
            float_bits(
                vertex_coordinates(table[i / WORDS_PER_VERTEX as int])[i % WORDS_PER_VERTEX as int],
            ),
    )
}

/// The word that encodes one coordinate.
fn coordinate_word(value: i8) -> (word: u32)
    requires
        -1 <= value <= 1,
    ensures
        word == float_bits(value as int),
{
    if value == 1 {
        0x3f80_0000
    } else if value == -1 {
        0xbf80_0000
    } else {
        0
    }
}

/// The words of a vertex buffer that holds `table`.
fn encode_vertices(table: &[Vertex]) -> (words: Vec<u32>)
    requires
        forall|i: int| 0 <= i < table@.len() ==> on_grid(#[trigger] table@[i]),
        WORDS_PER_VERTEX * table@.len() <= usize::MAX,
    ensures
        words@ == vertex_words(table@),
{
    let mut words: Vec<u32> = Vec::new();
    let mut i: usize = 0;
    while i < table.len()
        invariant
            i <= table@.len(),
            forall|j: int| 0 <= j < table@.len() ==> on_grid(#[trigger] table@[j]),
            words@.len() == WORDS_PER_VERTEX * i,
            forall|j: int|
                0 <= j < words@.len() ==> #[trigger] words@[j] == vertex_words(table@)[j],
        decreases table@.len() - i,
    {
        let v = table[i];
        let ghost before = words@;
        let ghost c = vertex_coordinates(v);
        proof {
            assert(on_grid(v));
            assert(-1 <= c[0] <= 1);
            assert(-1 <= c[1] <= 1);
            assert(-1 <= c[2] <= 1);
            assert(-1 <= c[3] <= 1);
            assert(-1 <= c[4] <= 1);
        }
        words.push(coordinate_word(v.position[0]));
        words.push(coordinate_word(v.position[1]));
        words.push(coordinate_word(v.position[2]));
        words.push(coordinate_word(v.tex_coords[0] as i8));
        words.push(coordinate_word(v.tex_coords[1] as i8));
        proof {
            assert forall|j: int| 0 <= j < words@.len() implies #[trigger] words@[j]
                == vertex_words(table@)[j] by {
                if j < before.len() {
                    assert(words@[j] == before[j]);
                } else {
                    let k = j - WORDS_PER_VERTEX * i;
                    assert(0 <= k < 5);
                    assert(j / 5 == i as int && j % 5 == k) by (nonlinear_arith)
                        requires
                            j == 5 * i + k,
                            0 <= k < 5,
                    ;
                    assert(words@[j] == float_bits(c[k]));
                }
            }
        }
        i += 1;
    }
    assert(words@ =~= vertex_words(table@));
    words
}

/// What the vertex buffer is created with: the corner table as the vertex
/// stage reads it, five 32-bit floats for each corner.
pub fn vertex_buffer_contents() -> (bytes: Vec<u8>)
    ensures
        is_long_memory_image(bytes@, vertex_words(cube_vertices())),
        bytes@.len() == VERTEX_COUNT * Vertex::byte_size(),
{
    let table = vertices();
    proof {
        lemma_cube_is_on_grid();
    }
    let words = encode_vertices(table.as_slice());
    long_words_as_bytes(words.as_slice())
}

/// Every corner of the cube lies on the grid.
pub proof fn lemma_cube_is_on_grid()
    ensures
        forall|i: int| 0 <= i < cube_vertices().len() ==> on_grid(#[trigger] cube_vertices()[i]),
{
    assert forall|i: int| 0 <= i < cube_vertices().len() implies on_grid(
        #[trigger] cube_vertices()[i],
    ) by {
        let c = vertex_coordinates(cube_vertices()[i]);
        assert(c.len() == 5);
        assert(-1 <= c[0] <= 1 && -1 <= c[1] <= 1 && -1 <= c[2] <= 1 && -1 <= c[3] <= 1 && -1
            <= c[4] <= 1);
    }
}

/// The layout of the corner buffer describes what the buffer holds. Corner
/// `i` starts `i` strides into the buffer. There, at the offset of the
/// first attribute, stand the three floats of its position, and at the
/// offset of the second attribute the two floats of its texture coordinate.
pub proof fn lemma_layout_describes_contents(table: Seq<Vertex>, i: int)
    requires
        0 <= i < table.len(),
    ensures
        ({
            let words = vertex_words(table);
            let stride = Vertex::byte_size() as int;
            let position_at = (i * stride + vertex_layout_attributes()[0].offset) / 4;
            let tex_coords_at = (i * stride + vertex_layout_attributes()[1].offset) / 4;
            &&& stride == 4 * WORDS_PER_VERTEX
            &&& 0 <= position_at && tex_coords_at + 2 <= words.len()
            &&& forall|k: int|
                0 <= k < 3 ==> #[trigger] words[position_at + k] == float_bits(
                    table[i].position[k] as int,
                )
            &&& forall|k: int|
                0 <= k < 2 ==> #[trigger] words[tex_coords_at + k] == float_bits(
                    table[i].tex_coords[k] as int,
                )
        }),
{
    let words = vertex_words(table);
    let position_at = (i * 20 + 0) / 4;
    let tex_coords_at = (i * 20 + 12) / 4;
    assert(position_at == 5 * i);
    assert(tex_coords_at == 5 * i + 3);
    let c = vertex_coordinates(table[i]);
    assert forall|k: int| 0 <= k < 3 implies #[trigger] words[position_at + k] == float_bits(
        table[i].position[k] as int,
    ) by {
        let j = position_at + k;
        assert(j / 5 == i && j % 5 == k) by (nonlinear_arith)
            requires
                j == 5 * i + k,
                0 <= k < 3,
        ;
        assert(c[k] == table[i].position[k] as int);
    }
    assert forall|k: int| 0 <= k < 2 implies #[trigger] words[tex_coords_at + k] == float_bits(
        table[i].tex_coords[k] as int,
    ) by {
        let j = tex_coords_at + k;
        assert(j / 5 == i && j % 5 == 3 + k) by (nonlinear_arith)
            requires
                j == 5 * i + 3 + k,
                0 <= k < 2,
        ;
        assert(c[3 + k] == table[i].tex_coords[k] as int);
    }
}

} // verus!
