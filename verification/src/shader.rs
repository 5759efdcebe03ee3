//! The kernel's binary, turned from bytes into the words that a shader module
//! is made of.

use vstd::prelude::*;
use vulkano::shader::spirv::SpirvBytesNotMultipleOf4;

verus! {

/// The error of `vulkano::shader::spirv::bytes_to_words`. It carries nothing.
#[verifier::external_type_specification]
#[verifier::external_body]
pub struct ExSpirvBytesNotMultipleOf4(SpirvBytesNotMultipleOf4);

/// Why a binary was refused.
#[derive(Clone, Copy, Debug, PartialEq, Eq)]
pub enum ShaderError {
    /// The binary does not end on a word boundary; `len` is its length in bytes.
    Ragged { len: usize },
}

/// The word whose four bytes start at `4 * i`, lowest byte first.
pub open spec fn word_at(bytes: Seq<u8>, i: int) -> u32 {
    (bytes[4 * i] as int + 0x100 * bytes[4 * i + 1] as int + 0x1_0000 * bytes[4 * i + 2] as int
        + 0x100_0000 * bytes[4 * i + 3] as int) as u32
}

/// The words of a binary whose length is a multiple of four.
pub open spec fn words_of(bytes: Seq<u8>) -> Seq<u32> {
    Seq::new((bytes.len() / 4) as nat, |i: int| word_at(bytes, i))
}

/// Calls `vulkano::shader::spirv::bytes_to_words` and copies what it borrowed.
///
/// Not proved: that the call fails exactly on a length that four does not
/// divide, and that it otherwise reads each group of four bytes as one
/// little-endian word, on every target.
#[verifier::external_body]
fn spirv_words(bytes: &[u8]) -> (r: Result<Vec<u32>, SpirvBytesNotMultipleOf4>)
    ensures
        r is Ok <==> bytes@.len() % 4 == 0,
        r is Ok ==> r->Ok_0@ == words_of(bytes@),
{
    match vulkano::shader::spirv::bytes_to_words(bytes) {
        Ok(words) => Ok(words.into_owned()),
        Err(e) => Err(e),
    }
}

/// The words of a kernel binary, or the reason why it has none.
pub fn shader_words(bytes: &[u8]) -> (r: Result<Vec<u32>, ShaderError>)
    ensures
        match r {
            Ok(words) => bytes@.len() % 4 == 0 && words@ == words_of(bytes@),
            Err(e) => bytes@.len() % 4 != 0 && e == (ShaderError::Ragged { len: bytes.len() }),
        },
{
    match spirv_words(bytes) {
        Ok(words) => Ok(words),
        Err(_) => Err(ShaderError::Ragged { len: bytes.len() }),
    }
}

} // verus!
