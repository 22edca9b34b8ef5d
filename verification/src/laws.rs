//! Properties of the codec that span its functions.

use vstd::prelude::*;
use crate::codec::{
    canonical_fault, decode_result, decodes_to, encode_verdict, precheck_fault, EncodeFault, Outcome,
    PayloadFault, MAX_OMG_IDL_PAYLOAD_LEN,
};
use crate::encapsulation::{is_strict_encapsulation, lemma_no_fault_iff_strict, encapsulation_fault};
use crate::wire::{encoded_layout, owned_encoding, EncodedLayout};

verus! {

/// A layout probe reports exactly the length of the payload that an owned encode
/// returns for the same serializer result, with alignment 1, and fails with the
/// same error.
pub proof fn law_layout_matches_owned_encoding(o: Outcome<Vec<u8>>)
    ensures
        match owned_encoding(o) {
            Ok(b) => encoded_layout(o) == Ok::<EncodedLayout, crate::codec::WireError>(
                EncodedLayout { len: b.len(), align: 1 },
            ),
            Err(e) => encoded_layout(o) == Err::<EncodedLayout, crate::codec::WireError>(e),
        },
{
}

/// Every payload the encoder produces is within the size limit, is in the strict
/// profile, and so passes every check the decoder makes before Dust DDS runs.
pub proof fn law_encoded_payload_passes_precheck(o: Outcome<Vec<u8>>)
    ensures
        owned_encoding(o) matches Ok(b) ==> {
            &&& b@.len() <= MAX_OMG_IDL_PAYLOAD_LEN
            &&& is_strict_encapsulation(b@)
            &&& precheck_fault(b@) is None
        },
{
    if let Ok(b) = owned_encoding(o) {
        lemma_no_fault_iff_strict(b@);
    }
}

/// Round trip: a payload produced by the encoder decodes to `v` whenever the
/// Dust DDS decoder yields `v` and re-encoding `v` yields that same serializer result.
pub proof fn law_encoded_payload_decodes_back<T>(o: Outcome<Vec<u8>>, v: T)
    ensures
        owned_encoding(o) matches Ok(b) ==> decode_result(b@, Outcome::Produced(v), o) == Ok::<T, crate::codec::PayloadFault>(v),
{
    law_encoded_payload_passes_precheck(o);
}

/// A payload over the limit or outside the strict profile is rejected with the
/// same error whatever the Dust DDS decoder and re-encoder would have returned.
pub proof fn law_precheck_failure_is_independent_of_the_codec<T>(
    s: Seq<u8>,
    d1: Outcome<T>,
    o1: Outcome<Vec<u8>>,
    d2: Outcome<T>,
    o2: Outcome<Vec<u8>>,
)
    ensures
        precheck_fault(s) is Some ==> decode_result(s, d1, o1) == decode_result(s, d2, o2)
            && decode_result(s, d1, o1) is Err,
{
}

/// An accepted payload is within the limit, in the strict profile, and is exactly
/// the bytes that re-encoding the decoded value produced.
pub proof fn law_accepted_payload_is_canonical<T>(s: Seq<u8>, d: Outcome<T>, o: Outcome<Vec<u8>>)
    ensures
        decode_result(s, d, o) is Ok ==> {
            &&& s.len() <= MAX_OMG_IDL_PAYLOAD_LEN
            &&& is_strict_encapsulation(s)
            &&& d is Produced
            &&& encode_verdict(o) matches Ok(b) && b@ == s
        },
{
    lemma_no_fault_iff_strict(s);
}

/// Cutting a strict payload short at a length that is not a multiple of four
/// always yields a payload the decoder rejects before Dust DDS runs.
pub proof fn law_unaligned_truncation_is_rejected(s: Seq<u8>, end: int)
    requires
        is_strict_encapsulation(s),
        0 <= end < s.len(),
        end % 4 != 0,
    ensures
        precheck_fault(s.take(end)) is Some,
{
    let t = s.take(end);
    if t.len() <= MAX_OMG_IDL_PAYLOAD_LEN {
        assert(encapsulation_fault(t) is Some);
    }
}

/// The strict profile is exactly the documented header and padding rules: at
/// least the four header bytes; representation `00 01` (`CDR_LE`) or `00 03`
/// (`PL_CDR_LE`); options `[0, p]` with any padding count `p` from 0 to 3; a total
/// length that is a multiple of four; a value at least `p` bytes long; and `p`
/// terminal bytes that are all zero. A byte string passes the profile check
/// exactly when all of these hold.
pub proof fn law_profile_is_the_documented_header_and_padding(s: Seq<u8>)
    ensures
        encapsulation_fault(s) is None <==> {
            &&& s.len() >= 4
            &&& s[0] == 0u8
            &&& (s[1] == 1u8 || s[1] == 3u8)
            &&& s[2] == 0u8
            &&& s[3] <= 3u8
            &&& s.len() % 4 == 0
            &&& s[3] as int <= s.len() - 4
            &&& forall|i: int| s.len() - (s[3] as int) <= i < s.len() ==> s[i] == 0u8
        },
        is_strict_encapsulation(s) <==> encapsulation_fault(s) is None,
{
    lemma_no_fault_iff_strict(s);
}

/// The encoder hands back the serializer's bytes unchanged exactly when they are
/// within the size limit and in the strict profile, and fails otherwise.
pub proof fn law_encoder_keeps_exactly_the_profile_outputs(b: Vec<u8>)
    ensures
        (b@.len() <= MAX_OMG_IDL_PAYLOAD_LEN && is_strict_encapsulation(b@))
            ==> encode_verdict(Outcome::Produced(b)) == Ok::<Vec<u8>, EncodeFault>(b),
        !(b@.len() <= MAX_OMG_IDL_PAYLOAD_LEN && is_strict_encapsulation(b@))
            ==> encode_verdict(Outcome::Produced(b)) is Err,
{
    lemma_no_fault_iff_strict(b@);
}

/// Every canonical payload is accepted: if a payload is within the limit and in
/// the strict profile (with either accepted representation and any valid padding
/// count), the Dust DDS decoder can only yield `v`, and re-encoding `v` can only
/// yield exactly the payload's bytes, then the strict decoder returns `Ok(v)`.
pub proof fn law_decoder_accepts_every_canonical_payload<T, D, E>(
    src: &[u8],
    deserialize: D,
    reencode: E,
    v: T,
    r: Result<T, PayloadFault>,
)
    where
        D: FnOnce(&[u8]) -> Outcome<T>,
        E: FnOnce(&T) -> Outcome<Vec<u8>>,
    requires
        src@.len() <= MAX_OMG_IDL_PAYLOAD_LEN,
        is_strict_encapsulation(src@),
        forall|d: Outcome<T>| #[trigger] call_ensures(deserialize, (src,), d) ==> d == Outcome::Produced(v),
        forall|o: Outcome<Vec<u8>>| #[trigger] call_ensures(reencode, (&v,), o)
            ==> (o matches Outcome::Produced(b) && b@ == src@),
        decodes_to(src, deserialize, reencode, r),
    ensures
        r == Ok::<T, PayloadFault>(v),
{
    lemma_no_fault_iff_strict(src@);
    assert(precheck_fault(src@) is None);
    let (d, o) = choose|d: Outcome<T>, o: Outcome<Vec<u8>>|
        #![trigger call_ensures(deserialize, (src,), d), decode_result(src@, d, o)]
        call_ensures(deserialize, (src,), d)
        && (d matches Outcome::Produced(w) ==> call_ensures(reencode, (&w,), o))
        && r == decode_result(src@, d, o);
    assert(d == Outcome::Produced(v));
    assert(call_ensures(reencode, (&v,), o));
    if let Outcome::Produced(b) = o {
        assert(b@ == src@);
        assert(encode_verdict(o) == Ok::<Vec<u8>, EncodeFault>(b));
        assert(canonical_fault(src@, o) is None);
    }
}

/// Every accepted payload, of any length, is within the limit, in the strict
/// profile, and is byte for byte what re-encoding the decoded value produced: if
/// the strict decoder returns `Ok(v)`, the Dust DDS decoder yielded `v` and
/// re-encoding `v` yielded exactly the payload's bytes.
pub proof fn law_accepted_payload_is_its_value_re_encoded<T, D, E>(
    src: &[u8],
    deserialize: D,
    reencode: E,
    v: T,
)
    where
        D: FnOnce(&[u8]) -> Outcome<T>,
        E: FnOnce(&T) -> Outcome<Vec<u8>>,
    requires
        decodes_to(src, deserialize, reencode, Ok::<T, PayloadFault>(v)),
    ensures
        src@.len() <= MAX_OMG_IDL_PAYLOAD_LEN,
        is_strict_encapsulation(src@),
        call_ensures(deserialize, (src,), Outcome::Produced(v)),
        exists|b: Vec<u8>| #[trigger] call_ensures(reencode, (&v,), Outcome::Produced(b)) && b@ == src@,
{
    lemma_no_fault_iff_strict(src@);
    let r = Ok::<T, PayloadFault>(v);
    let (d, o) = choose|d: Outcome<T>, o: Outcome<Vec<u8>>|
        #![trigger call_ensures(deserialize, (src,), d), decode_result(src@, d, o)]
        call_ensures(deserialize, (src,), d)
        && (d matches Outcome::Produced(w) ==> call_ensures(reencode, (&w,), o))
        && r == decode_result(src@, d, o);
    assert(d == Outcome::Produced(v));
    if let Outcome::Produced(b) = o {
        assert(call_ensures(reencode, (&v,), Outcome::Produced(b)) && b@ == src@);
    }
}

} // verus!
