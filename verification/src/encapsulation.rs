//! The strict encapsulation header and padding profile of a SerializedPayload.

use vstd::prelude::*;

verus! {

/// Length in bytes of the DDS SerializedPayload encapsulation header.
pub const ENCAPSULATION_HEADER_LEN: usize = 4;

/// Why a byte string is outside the strict XCDR1 little-endian profile.
#[derive(Clone, Copy, Debug, PartialEq, Eq, Structural)]
pub enum EncapsulationFault {
    /// Fewer than two bytes: no representation identifier.
    HeaderTruncated,
    /// The representation identifier is neither `CDR_LE` nor `PL_CDR_LE`.
    Representation { first: u8, second: u8 },
    /// The two representation option bytes are missing.
    OptionsTruncated,
    /// The reserved option byte is not zero or the padding count exceeds three.
    InvalidOptions { reserved: u8, padding: u8 },
    /// The payload length is not a multiple of four.
    LengthNotMultipleOfFour,
    /// The padding count exceeds the length of the serialized value.
    PaddingExceedsValue,
    /// A terminal padding byte is not zero.
    NonzeroPadding,
}

/// Whether two bytes are the `CDR_LE` (`0x0001`) or `PL_CDR_LE` (`0x0003`) identifier.
pub open spec fn is_accepted_representation(first: u8, second: u8) -> bool {
    first == 0 && (second == 1 || second == 3)
}

/// The padding count that the options announce (the fourth header byte).
pub open spec fn padding_count(s: Seq<u8>) -> int {
    s[3] as int
}

/// The strict profile: an accepted representation, options `[0, p]` with `p <= 3`,
/// a total length that is a multiple of four, a value at least `p` bytes long,
/// and `p` terminal bytes that are all zero.
pub open spec fn is_strict_encapsulation(s: Seq<u8>) -> bool {
    &&& s.len() >= ENCAPSULATION_HEADER_LEN
    &&& is_accepted_representation(s[0], s[1])
    &&& s[2] == 0
    &&& s[3] <= 3
    &&& s.len() % 4 == 0
    &&& padding_count(s) <= s.len() - ENCAPSULATION_HEADER_LEN
    &&& forall|i: int| s.len() - padding_count(s) <= i < s.len() ==> s[i] == 0
}

/// The first check of the profile that `s` fails, in the order in which they are made.
pub open spec fn encapsulation_fault(s: Seq<u8>) -> Option<EncapsulationFault> {
    if s.len() < 2 {
        Some(EncapsulationFault::HeaderTruncated)
    } else if !is_accepted_representation(s[0], s[1]) {
        Some(EncapsulationFault::Representation { first: s[0], second: s[1] })
    } else if s.len() < ENCAPSULATION_HEADER_LEN {
        Some(EncapsulationFault::OptionsTruncated)
    } else if s[2] != 0 || s[3] > 3 {
        Some(EncapsulationFault::InvalidOptions { reserved: s[2], padding: s[3] })
    } else if s.len() % 4 != 0 {
        Some(EncapsulationFault::LengthNotMultipleOfFour)
    } else if padding_count(s) > s.len() - ENCAPSULATION_HEADER_LEN {
        Some(EncapsulationFault::PaddingExceedsValue)
    } else if exists|i: int| s.len() - padding_count(s) <= i < s.len() && s[i] != 0 {
        Some(EncapsulationFault::NonzeroPadding)
    } else {
        None
    }
}

/// A byte string has no fault exactly when it is in the strict profile.
pub proof fn lemma_no_fault_iff_strict(s: Seq<u8>)
    ensures
        encapsulation_fault(s) is None <==> is_strict_encapsulation(s),
{
}

/// Checks the encapsulation header, total alignment and terminal padding of a
/// complete SerializedPayload.
pub fn validate_encapsulation(src: &[u8]) -> (r: Result<(), EncapsulationFault>)
    ensures
        r == (match encapsulation_fault(src@) {
            Some(f) => Err(f),
            None => Ok(()),
        }),
        r is Ok <==> is_strict_encapsulation(src@),
{
    if src.len() < 2 {
        return Err(EncapsulationFault::HeaderTruncated);
    }
    let first = src[0];
    let second = src[1];
    if !(first == 0 && (second == 1 || second == 3)) {
        return Err(EncapsulationFault::Representation { first, second });
    }
    if src.len() < ENCAPSULATION_HEADER_LEN {
        return Err(EncapsulationFault::OptionsTruncated);
    }
    let reserved = src[2];
    let padding = src[3];
    if reserved != 0 || padding > 3 {
        return Err(EncapsulationFault::InvalidOptions { reserved, padding });
    }
    if src.len() % 4 != 0 {
        return Err(EncapsulationFault::LengthNotMultipleOfFour);
    }
    let payload_len = src.len() - ENCAPSULATION_HEADER_LEN;
    let padding = padding as usize;
    if padding > payload_len {
        return Err(EncapsulationFault::PaddingExceedsValue);
    }
    let padding_start = src.len() - padding;
    let mut i = padding_start;
    while i < src.len()
        invariant
            padding_start <= i <= src.len(),
            src@.len() >= ENCAPSULATION_HEADER_LEN,
            is_accepted_representation(src@[0], src@[1]),
            src@[2] == 0,
            src@[3] <= 3,
            src@.len() % 4 == 0,
            padding_count(src@) <= src@.len() - ENCAPSULATION_HEADER_LEN,
            padding_start == src@.len() - padding_count(src@),
            forall|j: int| padding_start <= j < i ==> src@[j] == 0,
        decreases src.len() - i,
    {
        if src[i] != 0 {
            assert(src@.len() - padding_count(src@) <= i < src@.len() && src@[i as int] != 0);
            return Err(EncapsulationFault::NonzeroPadding);
        }
        i = i + 1;
    }
    Ok(())
}

} // verus!
