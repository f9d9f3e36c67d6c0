//! Reading precompiled shader bytecode into 32-bit SPIR-V words.
//!
//! A shader blob is valid when its length is a multiple of four bytes and
//! its first word is the SPIR-V magic number. Words are assembled
//! little-endian; a blob whose first word is the byte-swapped magic number
//! is read with every word byte-swapped.

use vstd::prelude::*;

verus! {

/// The SPIR-V magic number, the required first word of a shader module.
pub const SPIRV_MAGIC: u32 = 0x0723_0203;

/// The 32-bit word with the same bytes as `w` in the opposite order.
pub open spec fn byte_swapped(w: u32) -> u32 {
    ((w % 0x100) * 0x100_0000 + ((w / 0x100) % 0x100) * 0x1_0000 + ((w / 0x1_0000) % 0x100)
        * 0x100 + w / 0x100_0000) as u32
}

/// The 32-bit word assembled little-endian from the four bytes of `bytes`
/// that start at byte `4 * i`.
pub open spec fn word_at(bytes: Seq<u8>, i: int) -> u32 {
    (bytes[4 * i] + bytes[4 * i + 1] * 0x100 + bytes[4 * i + 2] * 0x1_0000 + bytes[4 * i + 3]
        * 0x100_0000) as u32
}

/// The little-endian 32-bit words of `bytes`, before any byte swap.
pub open spec fn raw_words(bytes: Seq<u8>) -> Seq<u32> {
    Seq::new((bytes.len() / 4) as nat, |i: int| word_at(bytes, i))
}

/// The SPIR-V words of `bytes`: its little-endian words, each byte-swapped
/// when the first one is the byte-swapped magic number.
pub open spec fn spirv_words(bytes: Seq<u8>) -> Seq<u32> {
    let raw = raw_words(bytes);
    if raw.len() > 0 && raw[0] == byte_swapped(SPIRV_MAGIC) {
        raw.map_values(|w: u32| byte_swapped(w))
    } else {
        raw
    }
}

/// Whether `bytes` is a well-formed SPIR-V module: a positive multiple of
/// four bytes long, beginning with the magic number in either byte order.
pub open spec fn is_valid_spirv(bytes: Seq<u8>) -> bool {
    &&& bytes.len() % 4 == 0
    &&& bytes.len() > 0
    &&& spirv_words(bytes)[0] == SPIRV_MAGIC
}

/// Why a shader blob was rejected.
#[derive(Clone, Copy, PartialEq, Eq, Structural, Debug)]
pub enum ShaderError {
    /// The blob's length is not a multiple of four bytes.
    UnalignedLength,
    /// The blob is empty, or its first word is not the SPIR-V magic number
    /// in either byte order.
    MissingMagicNumber,
}

/// The 32-bit word with the same bytes as `w` in the opposite order.
fn byte_swap(w: u32) -> (r: u32)
    ensures
        r == byte_swapped(w),
{
    (w % 0x100) * 0x100_0000 + ((w / 0x100) % 0x100) * 0x1_0000 + ((w / 0x1_0000) % 0x100) * 0x100
        + w / 0x100_0000
}

/// Reads a precompiled shader blob as SPIR-V words.
///
/// Succeeds exactly on well-formed SPIR-V modules and returns their words,
/// byte-swapped to native order when the blob was big-endian.
pub fn read_spirv(bytes: &Vec<u8>) -> (r: Result<Vec<u32>, ShaderError>)
    ensures
        r is Ok <==> is_valid_spirv(bytes@),
        r matches Ok(words) ==> words@ == spirv_words(bytes@),
        bytes@.len() % 4 != 0 ==> r == Err::<Vec<u32>, ShaderError>(ShaderError::UnalignedLength),
        bytes@.len() % 4 == 0 && !is_valid_spirv(bytes@) ==> r == Err::<
            Vec<u32>,
            ShaderError,
        >(ShaderError::MissingMagicNumber),
{
    if bytes.len() % 4 != 0 {
        return Err(ShaderError::UnalignedLength);
    }
    let n = bytes.len() / 4;
    let mut words: Vec<u32> = Vec::with_capacity(n);
    let mut i: usize = 0;
    while i < n
        invariant
            i <= n,
            n == bytes@.len() / 4,
            bytes@.len() % 4 == 0,
            4 * n <= usize::MAX,
            words@.len() == i,
            forall|j: int| 0 <= j < i ==> words@[j] == word_at(bytes@, j),
        decreases n - i,
    {
        let b0 = bytes[4 * i];
        let b1 = bytes[4 * i + 1];
        let b2 = bytes[4 * i + 2];
        let b3 = bytes[4 * i + 3];
        let w = (b0 as u32) + (b1 as u32) * 0x100 + (b2 as u32) * 0x1_0000 + (b3 as u32)
            * 0x100_0000;
        words.push(w);
        i += 1;
    }
    proof {
        assert(words@ =~= raw_words(bytes@));
    }
    if words.len() == 0 {
        return Err(ShaderError::MissingMagicNumber);
    }
    if words[0] == byte_swap(SPIRV_MAGIC) {
        let ghost raw = words@;
        let mut j: usize = 0;
        while j < words.len()
            invariant
                j <= words@.len(),
                words@.len() == raw.len(),
                forall|k: int| 0 <= k < j ==> words@[k] == byte_swapped(raw[k]),
                forall|k: int| j <= k < raw.len() ==> words@[k] == raw[k],
            decreases words@.len() - j,
        {
            let swapped = byte_swap(words[j]);
            words.set(j, swapped);
            j += 1;
        }
        proof {
            assert(words@ =~= raw.map_values(|w: u32| byte_swapped(w)));
        }
    }
    if words[0] != SPIRV_MAGIC {
        return Err(ShaderError::MissingMagicNumber);
    }
    Ok(words)
}

} // verus!
