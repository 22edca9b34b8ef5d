//! The strict encode and decode pipelines around the Dust DDS XCDR1 codec.
//!
//! The Dust DDS serializer and deserializer, and the type-support conversions
//! that surround them, are handed in as closures that report an [`Outcome`]:
//! they may fail, or panic and be caught by the caller. Everything that decides
//! whether bytes are accepted happens here.

use vstd::prelude::*;
use crate::encapsulation::{encapsulation_fault, validate_encapsulation, EncapsulationFault};

verus! {

/// Maximum accepted or produced OMG IDL payload size (16 MiB).
pub const MAX_OMG_IDL_PAYLOAD_LEN: usize = 16 * 1024 * 1024;

/// What a call into the Dust DDS codec came back with.
#[derive(Clone, Debug, PartialEq)]
pub enum Outcome<T> {
    /// The call panicked and the panic was caught.
    Panicked,
    /// The call returned an error, described by the text.
    Failed(String),
    /// The call produced a value.
    Produced(T),
}

/// Why encoding a value failed.
#[derive(Clone, Debug, PartialEq)]
pub enum EncodeFault {
    /// The Dust DDS encoder panicked.
    EncoderPanicked,
    /// The Dust DDS encoder returned an error.
    EncodeFailed(String),
    /// The encoded payload is longer than [`MAX_OMG_IDL_PAYLOAD_LEN`].
    TooLarge { len: usize },
    /// The encoder produced bytes outside the strict profile.
    OutsideProfile(EncapsulationFault),
}

/// Why a payload was rejected.
#[derive(Clone, Debug, PartialEq)]
pub enum PayloadFault {
    /// The payload is longer than [`MAX_OMG_IDL_PAYLOAD_LEN`].
    TooLarge { len: usize },
    /// The payload is outside the strict encapsulation profile.
    Encapsulation(EncapsulationFault),
    /// The Dust DDS decoder panicked.
    DecoderPanicked,
    /// The Dust DDS decoder returned an error.
    DecodeFailed(String),
    /// Re-encoding the decoded value failed.
    CanonicalValidation(EncodeFault),
    /// The decoded value re-encodes to bytes other than the payload.
    NotCanonical,
    /// The reader yielded fewer bytes than declared.
    ReaderShort(String),
    /// The reader yielded more bytes than declared.
    ReaderOverlong,
    /// The reader failed while its end was being checked.
    ReaderFailed(String),
    /// The reader handed back a buffer whose length is not the declared one.
    ReaderLength { declared: usize, yielded: usize },
}

/// The error kinds of a selected-wire payload codec.
#[derive(Clone, Debug, PartialEq)]
pub enum WireError {
    /// The input payload was rejected.
    InvalidPayload(PayloadFault),
    /// A value could not be encoded.
    SerializationError(EncodeFault),
    /// The destination is shorter than the encoded payload.
    BufferTooSmall { expected: usize, actual: usize },
}

/// Rejects a payload length above the limit before any decoding work.
pub fn ensure_payload_limit(len: usize) -> (r: Result<(), PayloadFault>)
    ensures
        r == (if len > MAX_OMG_IDL_PAYLOAD_LEN {
            Err(PayloadFault::TooLarge { len })
        } else {
            Ok(())
        }),
{
    if len > MAX_OMG_IDL_PAYLOAD_LEN {
        return Err(PayloadFault::TooLarge { len });
    }
    Ok(())
}

/// Rejects an encoded length above the limit.
pub fn ensure_payload_limit_for_encode(len: usize) -> (r: Result<(), EncodeFault>)
    ensures
        r == (if len > MAX_OMG_IDL_PAYLOAD_LEN {
            Err(EncodeFault::TooLarge { len })
        } else {
            Ok(())
        }),
{
    if len > MAX_OMG_IDL_PAYLOAD_LEN {
        return Err(EncodeFault::TooLarge { len });
    }
    Ok(())
}

/// What the strict encoder makes of what the Dust DDS serializer returned.
pub open spec fn encode_verdict(o: Outcome<Vec<u8>>) -> Result<Vec<u8>, EncodeFault> {
    match o {
        Outcome::Panicked => Err(EncodeFault::EncoderPanicked),
        Outcome::Failed(m) => Err(EncodeFault::EncodeFailed(m)),
        Outcome::Produced(b) => if b.len() > MAX_OMG_IDL_PAYLOAD_LEN {
            Err(EncodeFault::TooLarge { len: b.len() })
        } else {
            match encapsulation_fault(b@) {
                Some(f) => Err(EncodeFault::OutsideProfile(f)),
                None => Ok(b),
            }
        },
    }
}

/// The checks a payload must pass before the Dust DDS decoder sees it.
pub open spec fn precheck_fault(s: Seq<u8>) -> Option<PayloadFault> {
    if s.len() > MAX_OMG_IDL_PAYLOAD_LEN {
        Some(PayloadFault::TooLarge { len: s.len() as usize })
    } else {
        match encapsulation_fault(s) {
            Some(f) => Some(PayloadFault::Encapsulation(f)),
            None => None,
        }
    }
}

/// Whether re-encoding, reported by `o`, reproduces the payload `s` exactly.
pub open spec fn canonical_fault(s: Seq<u8>, o: Outcome<Vec<u8>>) -> Option<PayloadFault> {
    match encode_verdict(o) {
        Err(e) => Some(PayloadFault::CanonicalValidation(e)),
        Ok(b) => if b@ == s {
            None
        } else {
            Some(PayloadFault::NotCanonical)
        },
    }
}

/// Applies the size limit and the strict profile to what the serializer returned.
pub fn finish_encode(o: Outcome<Vec<u8>>) -> (r: Result<Vec<u8>, EncodeFault>)
    ensures
        r == encode_verdict(o),
{
    match o {
        Outcome::Panicked => Err(EncodeFault::EncoderPanicked),
        Outcome::Failed(m) => Err(EncodeFault::EncodeFailed(m)),
        Outcome::Produced(bytes) => {
            ensure_payload_limit_for_encode(bytes.len())?;
            match validate_encapsulation(bytes.as_slice()) {
                Err(f) => Err(EncodeFault::OutsideProfile(f)),
                Ok(()) => Ok(bytes),
            }
        },
    }
}

/// Encodes one value: runs the serializer and holds its bytes to the strict profile.
pub fn encode_xcdr1<F>(serialize: F) -> (r: Result<Vec<u8>, EncodeFault>)
    where
        F: FnOnce() -> Outcome<Vec<u8>>,
    requires
        call_requires(serialize, ()),
    ensures
        exists|o: Outcome<Vec<u8>>| #[trigger] call_ensures(serialize, (), o) && r == encode_verdict(o),
{
    let o = serialize();
    finish_encode(o)
}

/// Whether two byte strings are equal.
pub fn bytes_equal(a: &[u8], b: &[u8]) -> (r: bool)
    ensures
        r == (a@ == b@),
{
    if a.len() != b.len() {
        return false;
    }
    let mut i: usize = 0;
    while i < a.len()
        invariant
            a@.len() == b@.len(),
            i <= a@.len(),
            forall|j: int| 0 <= j < i ==> a@[j] == b@[j],
        decreases a.len() - i,
    {
        if a[i] != b[i] {
            return false;
        }
        i = i + 1;
    }
    assert(a@ =~= b@);
    true
}

/// Size limit and strict profile, checked before the Dust DDS decoder runs.
pub fn decode_precheck(src: &[u8]) -> (r: Result<(), PayloadFault>)
    ensures
        r == (match precheck_fault(src@) {
            Some(f) => Err(f),
            None => Ok(()),
        }),
{
    ensure_payload_limit(src.len())?;
    match validate_encapsulation(src) {
        Err(f) => Err(PayloadFault::Encapsulation(f)),
        Ok(()) => Ok(()),
    }
}

/// Requires that re-encoding the decoded value reproduces every payload byte.
pub fn confirm_canonical(src: &[u8], o: Outcome<Vec<u8>>) -> (r: Result<(), PayloadFault>)
    ensures
        r == (match canonical_fault(src@, o) {
            Some(f) => Err(f),
            None => Ok(()),
        }),
{
    match finish_encode(o) {
        Err(e) => Err(PayloadFault::CanonicalValidation(e)),
        Ok(canonical) => if bytes_equal(canonical.as_slice(), src) {
            Ok(())
        } else {
            Err(PayloadFault::NotCanonical)
        },
    }
}

/// The verdict of the strict decoder on payload `s`, given what the Dust DDS
/// decoder returned (`d`) and what re-encoding its value returned (`o`).
pub open spec fn decode_result<T>(s: Seq<u8>, d: Outcome<T>, o: Outcome<Vec<u8>>) -> Result<T, PayloadFault> {
    match precheck_fault(s) {
        Some(f) => Err(f),
        None => match d {
            Outcome::Panicked => Err(PayloadFault::DecoderPanicked),
            Outcome::Failed(m) => Err(PayloadFault::DecodeFailed(m)),
            Outcome::Produced(v) => match canonical_fault(s, o) {
                Some(f) => Err(f),
                None => Ok(v),
            },
        },
    }
}

/// `r` is what the strict decoder returns for `src` with these codec calls: a
/// payload that fails the precheck is rejected without any call; otherwise the
/// verdict follows what the decoder and, on a decoded value, the re-encoder returned.
pub open spec fn decodes_to<T, D, E>(src: &[u8], deserialize: D, reencode: E, r: Result<T, PayloadFault>) -> bool
    where
        D: FnOnce(&[u8]) -> Outcome<T>,
        E: FnOnce(&T) -> Outcome<Vec<u8>>,
{
    match precheck_fault(src@) {
        Some(f) => r == Err::<T, PayloadFault>(f),
        None => exists|d: Outcome<T>, o: Outcome<Vec<u8>>|
            #![trigger call_ensures(deserialize, (src,), d), decode_result(src@, d, o)]
            call_ensures(deserialize, (src,), d)
            && (d matches Outcome::Produced(v) ==> call_ensures(reencode, (&v,), o))
            && r == decode_result(src@, d, o),
    }
}

/// Decodes one payload strictly: limit and profile first, then the Dust DDS
/// decoder, then a canonical re-encode that must reproduce every input byte.
pub fn decode_xcdr1<T, D, E>(src: &[u8], deserialize: D, reencode: E) -> (r: Result<T, PayloadFault>)
    where
        D: FnOnce(&[u8]) -> Outcome<T>,
        E: FnOnce(&T) -> Outcome<Vec<u8>>,
    requires
        precheck_fault(src@) is None ==> call_requires(deserialize, (src,)),
        forall|v: &T| #[trigger] call_requires(reencode, (v,)),
    ensures
        decodes_to(src, deserialize, reencode, r),
{
    decode_precheck(src)?;
    let d = deserialize(src);
    match d {
        Outcome::Panicked => {
            let r = Err(PayloadFault::DecoderPanicked);
            assert(decode_result(src@, d, Outcome::Panicked) == r);
            r
        },
        Outcome::Failed(m) => {
            let r = Err(PayloadFault::DecodeFailed(m));
            assert(decode_result(src@, d, Outcome::Panicked) == r);
            r
        },
        Outcome::Produced(value) => {
            let o = reencode(&value);
            let checked = confirm_canonical(src, o);
            assert(decode_result(src@, d, o) == match checked { Err(f) => Err(f), Ok(()) => Ok::<T, PayloadFault>(value) });
            checked?;
            Ok(value)
        },
    }
}

} // verus!
