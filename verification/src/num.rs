//! Operand words: classification and conversion from the byte image.
//!
//! A word is a `Literal` (0..=32767, read as-is), a `Register` name
//! (32768..=32775, naming register `word - 32768`), or `Invalid` (anything
//! above 32775).  Program images store words as little-endian byte pairs.

use vstd::prelude::*;

use crate::error::VmError;

verus! {

/// The class of an operand word, determined purely by its numeric range.
#[allow(non_camel_case_types)]
#[derive(Clone, Copy, Debug, PartialEq, Eq, Structural)]
pub enum NumType {
    LITERAL,
    REGISTER,
    INVALID,
}

/// The class of a word: literal below 32768, register name up to 32775,
/// invalid above that.
pub open spec fn spec_kind(w: u16) -> NumType {
    if w <= 32767 {
        NumType::LITERAL
    } else if w <= 32775 {
        NumType::REGISTER
    } else {
        NumType::INVALID
    }
}

/// The register index named by a word, or `NotARegister` for words outside
/// the register range.  Destination operands must resolve through this.
pub open spec fn spec_reg_idx(w: u16) -> Result<u16, VmError> {
    if 32768 <= w <= 32775 {
        Ok((w - 32768) as u16)
    } else {
        Err(VmError::NotARegister)
    }
}

/// The word stored as the little-endian byte pair `(lo, hi)`.
pub open spec fn spec_word_of(lo: u8, hi: u8) -> u16 {
    (lo + 256 * hi) as u16
}

/// The word sequence stored by a byte image: consecutive little-endian pairs.
pub open spec fn spec_words(raw: Seq<u8>) -> Seq<u16> {
    Seq::new((raw.len() / 2) as nat, |i: int| spec_word_of(raw[2 * i], raw[2 * i + 1]))
}

/// Classifies a word by its numeric range.
pub fn kind_of(value: u16) -> (r: NumType)
    ensures
        r == spec_kind(value),
{
    if value <= 32767 {
        return NumType::LITERAL;
    }
    if value <= 32775 {
        return NumType::REGISTER;
    }
    NumType::INVALID
}

/// Every word falls in exactly one class: literal for 0..=32767, register
/// for 32768..=32775, invalid above 32775.
pub proof fn lemma_kind_partition(w: u16)
    ensures
        spec_kind(w) is LITERAL <==> w <= 32767,
        spec_kind(w) is REGISTER <==> 32768 <= w <= 32775,
        spec_kind(w) is INVALID <==> w > 32775,
{
}

/// The register index a destination word names; only register words have one.
pub fn resolve_register_index(word: u16) -> (r: Result<u16, VmError>)
    ensures
        r == spec_reg_idx(word),
{
    if 32768 <= word && word <= 32775 {
        Ok(word - 32768)
    } else {
        Err(VmError::NotARegister)
    }
}

/// Reads one word from a little-endian byte pair; any other slice length is
/// a malformed image.
pub fn from_hex(raw: &[u8]) -> (r: Result<u16, VmError>)
    ensures
        raw@.len() == 2 ==> r == Ok::<u16, VmError>(spec_word_of(raw@[0], raw@[1])),
        raw@.len() != 2 ==> r == Err::<u16, VmError>(VmError::MalformedImage),
{
    if raw.len() != 2 {
        return Err(VmError::MalformedImage);
    }
    let lo = raw[0] as u16;
    let hi = raw[1] as u16;
    Ok(lo + 256 * hi)
}

/// Decodes a whole byte image into words, pairing consecutive bytes
/// little-endian; an odd byte length is a malformed image.
pub fn from_hex_slice(raw: &[u8]) -> (r: Result<Vec<u16>, VmError>)
    ensures
        raw@.len() % 2 == 0 ==> (r matches Ok(v) && v@ == spec_words(raw@)),
        raw@.len() % 2 != 0 ==> r == Err::<Vec<u16>, VmError>(VmError::MalformedImage),
{
    if raw.len() % 2 != 0 {
        return Err(VmError::MalformedImage);
    }
    let n = raw.len() / 2;
    let mut words: Vec<u16> = Vec::new();
    let mut i: usize = 0;
    while i < n
        invariant
            n == raw@.len() / 2,
            raw@.len() % 2 == 0,
            raw@.len() <= usize::MAX,
            i <= n,
            words@.len() == i,
            forall|j: int| 0 <= j < i ==> words@[j] == spec_words(raw@)[j],
        decreases n - i,
    {
        let lo = raw[2 * i] as u16;
        let hi = raw[2 * i + 1] as u16;
        words.push(lo + 256 * hi);
        i = i + 1;
    }
    proof {
        assert(words@ =~= spec_words(raw@));
    }
    Ok(words)
}

} // verus!
