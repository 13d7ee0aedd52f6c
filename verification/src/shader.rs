//! Shader artifacts: precompiled SPIR-V, read from a file and handed to the
//! device as 32-bit words.
//!
//! An artifact that is not a whole number of words, too short to hold a
//! header, or does not start with the SPIR-V magic number is refused before
//! the device sees it.

use vstd::prelude::*;

verus! {

/// The first word of every SPIR-V module.
pub const SPIRV_MAGIC: u32 = 0x0723_0203;

/// The size in bytes of the header of a SPIR-V module: five words.
pub const HEADER_SIZE: usize = 20;

/// Why bytes are no shader artifact.
#[derive(Clone, Copy, Debug, PartialEq, Eq, Structural)]
pub enum ShaderError {
    /// The length is no multiple of four.
    Misaligned,
    /// There are fewer bytes than a header has.
    TooShort,
    /// The first word is not the magic number.
    NotSpirv,
}

/// The word at `index`, its least significant byte first.
pub open spec fn word_at(bytes: Seq<u8>, index: int) -> u32 {
    (bytes[4 * index] + bytes[4 * index + 1] * 0x100 + bytes[4 * index + 2] * 0x1_0000 + bytes[4
        * index + 3] * 0x100_0000) as u32
}

/// The bytes as words.
pub open spec fn words_of(bytes: Seq<u8>) -> Seq<u32> {
    Seq::new(bytes.len() / 4, |index: int| word_at(bytes, index))
}

/// What is wrong with the bytes as a shader artifact, if anything.
pub open spec fn defect(bytes: Seq<u8>) -> Option<ShaderError> {
    if bytes.len() % 4 != 0 {
        Some(ShaderError::Misaligned)
    } else if bytes.len() < HEADER_SIZE {
        Some(ShaderError::TooShort)
    } else if word_at(bytes, 0) != SPIRV_MAGIC {
        Some(ShaderError::NotSpirv)
    } else {
        None
    }
}

/// Turns the bytes of a shader artifact into the words of the module, or
/// says what is wrong with them.
pub fn shader_words(bytes: &Vec<u8>) -> (words: Result<Vec<u32>, ShaderError>)
    ensures
        match defect(bytes@) {
            Some(error) => words == Err::<Vec<u32>, ShaderError>(error),
            None => words matches Ok(module) && module@ == words_of(bytes@),
        },
{
    let length = bytes.len();
    if length % 4 != 0 {
        return Err(ShaderError::Misaligned);
    }
    if length < HEADER_SIZE {
        return Err(ShaderError::TooShort);
    }
    let count = length / 4;
    let mut module: Vec<u32> = Vec::new();
    let mut i: usize = 0;
    while i < count
        invariant
            0 <= i <= count,
            count * 4 == length,
            length == bytes@.len(),
            module@ == words_of(bytes@).take(i as int),
        decreases count - i,
    {
        let word = bytes[4 * i] as u32 + bytes[4 * i + 1] as u32 * 0x100 + bytes[4 * i + 2] as u32
            * 0x1_0000 + bytes[4 * i + 3] as u32 * 0x100_0000;
        module.push(word);
        proof {
            assert(word == word_at(bytes@, i as int));
            assert(module@ =~= words_of(bytes@).take(i as int + 1));
        }
        i = i + 1;
    }
    proof {
        assert(words_of(bytes@).take(count as int) =~= words_of(bytes@));
    }
    if module[0] != SPIRV_MAGIC {
        return Err(ShaderError::NotSpirv);
    }
    Ok(module)
}

} // verus!
