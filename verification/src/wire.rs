//! The OMG IDL XCDR1 little-endian selected wire and its payload codec.

use vstd::prelude::*;
use bytes::Bytes;
use crate::codec::{
    decode_xcdr1, decodes_to, encode_verdict, encode_xcdr1, ensure_payload_limit, precheck_fault,
    Outcome, PayloadFault, WireError, MAX_OMG_IDL_PAYLOAD_LEN,
};

verus! {

/// Literal identity of the selected wire (provisional, local/experimental).
pub const OMG_IDL_WIRE_LITERAL_ID: &'static str = "org.eclipse.uprotocol.wire.omgidl-xcdr1-le.experimental";

/// Compact identity of the selected wire; not globally registered.
pub const OMG_IDL_WIRE_COMPACT_ID: u16 = 0xD101;

/// Literal identity of the payload family (provisional, local/experimental).
pub const OMG_IDL_PAYLOAD_FAMILY_LITERAL_ID: &'static str =
    "org.eclipse.uprotocol.payload.omgidl-xcdr1-le.experimental";

/// Compact identity of the payload family; not globally registered.
pub const OMG_IDL_PAYLOAD_FAMILY_COMPACT_ID: u16 = 0xD102;

/// Payload encoding identifier carried in frame metadata.
pub const OMG_IDL_ENCODING_ID: &'static str = "up.omgidl-xcdr1-le";

/// Media type for the strict XCDR1 little-endian payload profile.
pub const OMG_IDL_CONTENT_TYPE: &'static str = "application/vnd.omg.dds.xcdr1;endianness=little";

/// OMG IDL XCDR1 little-endian selected-wire marker.
#[derive(Clone, Copy, Debug, Default, PartialEq, Eq, Structural)]
pub struct OmgIdlWire;

/// What a reader gave back when asked to fill a buffer of the declared length
/// and then asked for one byte more.
#[derive(Debug, PartialEq)]
pub enum ExactRead {
    /// Filling the buffer failed: the reader ended early or returned an error,
    /// which the text describes.
    FillFailed(String),
    /// The buffer was filled with `bytes`; `probe` is what the read of one more
    /// byte returned: the number of bytes read, or the text of its error.
    Filled { bytes: Vec<u8>, probe: Result<usize, String> },
}

/// Declares the `bytes` crate's shared, immutable byte buffer.
#[verifier::external_type_specification]
#[verifier::external_body]
pub struct ExBytes(Bytes);

/// The bytes that a [`Bytes`] buffer holds.
pub uninterp spec fn bytes_contents(b: Bytes) -> Seq<u8>;

/// Wraps `<Bytes as From<Vec<u8>>>::from`, which takes over the vector's
/// allocation; the contract claims the buffer then holds exactly the vector's bytes.
#[verifier::external_body]
fn bytes_from_vec(vec: Vec<u8>) -> (b: Bytes)
    ensures
        bytes_contents(b) == vec@,
{
    Bytes::from(vec)
}

/// The result of an owned encode, given what the serializer returned.
pub open spec fn owned_encoding(o: Outcome<Vec<u8>>) -> Result<Vec<u8>, WireError> {
    match encode_verdict(o) {
        Ok(b) => Ok(b),
        Err(e) => Err(WireError::SerializationError(e)),
    }
}

/// Size and alignment of an encoded payload, as a layout probe reports them.
#[derive(Clone, Copy, Debug, PartialEq, Eq, Structural)]
pub struct EncodedLayout {
    /// Number of bytes of the complete SerializedPayload.
    pub len: usize,
    /// Required alignment of the destination buffer, in bytes.
    pub align: usize,
}

/// The layout a probe reports, given what the serializer returned: the encoded
/// length, with byte alignment (1), since the payload is copied byte by byte.
pub open spec fn encoded_layout(o: Outcome<Vec<u8>>) -> Result<EncodedLayout, WireError> {
    match encode_verdict(o) {
        Ok(b) => Ok(EncodedLayout { len: b.len(), align: 1 }),
        Err(e) => Err(WireError::SerializationError(e)),
    }
}

/// A decoder verdict as a wire error.
pub open spec fn lift_decode<T>(p: Result<T, PayloadFault>) -> Result<T, WireError> {
    match p {
        Ok(v) => Ok(v),
        Err(f) => Err(WireError::InvalidPayload(f)),
    }
}

/// Copies `bytes` to the front of `dst`, leaving the rest of `dst` untouched, or
/// reports that `dst` is too short and leaves it unchanged.
pub fn copy_prefix(bytes: &[u8], dst: &mut [u8]) -> (r: Result<(), WireError>)
    ensures
        bytes@.len() > old(dst)@.len() ==> r == Err::<(), WireError>(
            WireError::BufferTooSmall { expected: bytes@.len() as usize, actual: old(dst)@.len() as usize },
        ) && final(dst)@ == old(dst)@,
        bytes@.len() <= old(dst)@.len() ==> r == Ok::<(), WireError>(())
            && final(dst)@ == bytes@ + old(dst)@.skip(bytes@.len() as int),
{
    let actual = dst.len();
    if bytes.len() > actual {
        return Err(WireError::BufferTooSmall { expected: bytes.len(), actual });
    }
    let mut i: usize = 0;
    while i < bytes.len()
        invariant
            bytes@.len() <= old(dst)@.len(),
            dst@.len() == old(dst)@.len(),
            i <= bytes@.len(),
            forall|j: int| 0 <= j < i ==> dst@[j] == bytes@[j],
            forall|j: int| i <= j < dst@.len() ==> dst@[j] == old(dst)@[j],
        decreases bytes.len() - i,
    {
        dst[i] = bytes[i];
        i = i + 1;
    }
    assert(dst@ =~= bytes@ + old(dst)@.skip(bytes@.len() as int));
    Ok(())
}

impl OmgIdlWire {
    /// The payload format's name.
    pub fn name() -> (r: &'static str)
        ensures
            r@ == "omgidl-xcdr1-le"@,
    {
        "omgidl-xcdr1-le"
    }

    /// Length and alignment (always 1) of the payload that encoding a value
    /// produces (one probe serialization).
    pub fn payload_layout<F>(serialize: F) -> (r: Result<EncodedLayout, WireError>)
        where
            F: FnOnce() -> Outcome<Vec<u8>>,
        requires
            call_requires(serialize, ()),
        ensures
            exists|o: Outcome<Vec<u8>>| #[trigger] call_ensures(serialize, (), o) && r == encoded_layout(o),
            r matches Ok(l) ==> l.align == 1,
    {
        match encode_xcdr1(serialize) {
            Ok(bytes) => Ok(EncodedLayout { len: bytes.len(), align: 1 }),
            Err(e) => Err(WireError::SerializationError(e)),
        }
    }

    /// Encodes a value into the front of `dst`; the bytes after the payload are untouched.
    pub fn encode_payload<F>(serialize: F, dst: &mut [u8]) -> (r: Result<(), WireError>)
        where
            F: FnOnce() -> Outcome<Vec<u8>>,
        requires
            call_requires(serialize, ()),
        ensures
            exists|o: Outcome<Vec<u8>>| #[trigger] call_ensures(serialize, (), o) && match owned_encoding(o) {
                Err(e) => r == Err::<(), WireError>(e) && final(dst)@ == old(dst)@,
                Ok(b) => if b@.len() > old(dst)@.len() {
                    r == Err::<(), WireError>(
                        WireError::BufferTooSmall { expected: b@.len() as usize, actual: old(dst)@.len() as usize },
                    ) && final(dst)@ == old(dst)@
                } else {
                    r == Ok::<(), WireError>(()) && final(dst)@ == b@ + old(dst)@.skip(b@.len() as int)
                },
            },
    {
        match encode_xcdr1(serialize) {
            Ok(bytes) => copy_prefix(bytes.as_slice(), dst),
            Err(e) => Err(WireError::SerializationError(e)),
        }
    }

    /// Encodes a value into a new buffer (one serialization, no further copy).
    pub fn encode_payload_owned<F>(serialize: F) -> (r: Result<Bytes, WireError>)
        where
            F: FnOnce() -> Outcome<Vec<u8>>,
        requires
            call_requires(serialize, ()),
        ensures
            exists|o: Outcome<Vec<u8>>| #[trigger] call_ensures(serialize, (), o) && match owned_encoding(o) {
                Ok(v) => r matches Ok(b) && bytes_contents(b) == v@,
                Err(e) => r == Err::<Bytes, WireError>(e),
            },
    {
        match encode_xcdr1(serialize) {
            Ok(bytes) => Ok(bytes_from_vec(bytes)),
            Err(e) => Err(WireError::SerializationError(e)),
        }
    }

    /// Decodes one contiguous payload strictly.
    pub fn decode_payload<T, D, E>(src: &[u8], deserialize: D, reencode: E) -> (r: Result<T, WireError>)
        where
            D: FnOnce(&[u8]) -> Outcome<T>,
            E: FnOnce(&T) -> Outcome<Vec<u8>>,
        requires
            precheck_fault(src@) is None ==> call_requires(deserialize, (src,)),
            forall|v: &T| #[trigger] call_requires(reencode, (v,)),
        ensures
            exists|p: Result<T, PayloadFault>| #[trigger] decodes_to(src, deserialize, reencode, p) && r == lift_decode(p),
    {
        let p = decode_xcdr1(src, deserialize, reencode);
        assert(decodes_to(src, deserialize, reencode, p));
        match p {
            Ok(v) => Ok(v),
            Err(f) => Err(WireError::InvalidPayload(f)),
        }
    }

    /// Decodes a payload of declared length from a reader: the length is checked
    /// against the limit before the reader is asked for anything, the reader must
    /// fill exactly that many bytes and then report its end, and the bytes are
    /// decoded strictly.
    pub fn decode_payload_from_reader<T, R, D, E>(
        payload_len: usize,
        read_exact: R,
        deserialize: D,
        reencode: E,
    ) -> (r: Result<T, WireError>)
        where
            R: FnOnce(usize) -> ExactRead,
            D: FnOnce(&[u8]) -> Outcome<T>,
            E: FnOnce(&T) -> Outcome<Vec<u8>>,
        requires
            payload_len <= MAX_OMG_IDL_PAYLOAD_LEN ==> call_requires(read_exact, (payload_len,)),
            forall|s: &[u8]| precheck_fault(s@) is None ==> #[trigger] call_requires(deserialize, (s,)),
            forall|v: &T| #[trigger] call_requires(reencode, (v,)),
        ensures
            payload_len > MAX_OMG_IDL_PAYLOAD_LEN ==> r == Err::<T, WireError>(
                WireError::InvalidPayload(PayloadFault::TooLarge { len: payload_len }),
            ),
            payload_len <= MAX_OMG_IDL_PAYLOAD_LEN ==> exists|x: ExactRead|
                #[trigger] call_ensures(read_exact, (payload_len,), x) && match x {
                ExactRead::FillFailed(m) => r == Err::<T, WireError>(
                    WireError::InvalidPayload(PayloadFault::ReaderShort(m)),
                ),
                ExactRead::Filled { bytes, probe } => if bytes@.len() != payload_len {
                    r == Err::<T, WireError>(WireError::InvalidPayload(
                        PayloadFault::ReaderLength { declared: payload_len, yielded: bytes@.len() as usize },
                    ))
                } else {
                    match probe {
                        Err(m) => r == Err::<T, WireError>(WireError::InvalidPayload(PayloadFault::ReaderFailed(m))),
                        Ok(n) => if n != 0 {
                            r == Err::<T, WireError>(WireError::InvalidPayload(PayloadFault::ReaderOverlong))
                        } else {
                            exists|s: &[u8], p: Result<T, PayloadFault>|
                                #![trigger decodes_to(s, deserialize, reencode, p)]
                                s@ == bytes@ && decodes_to(s, deserialize, reencode, p) && r == lift_decode(p)
                        },
                    }
                },
            },
    {
        match ensure_payload_limit(payload_len) {
            Err(f) => return Err(WireError::InvalidPayload(f)),
            Ok(()) => {},
        }
        let x = read_exact(payload_len);
        match x {
            ExactRead::FillFailed(m) => Err(WireError::InvalidPayload(PayloadFault::ReaderShort(m))),
            ExactRead::Filled { bytes, probe } => {
                if bytes.len() != payload_len {
                    return Err(WireError::InvalidPayload(
                        PayloadFault::ReaderLength { declared: payload_len, yielded: bytes.len() },
                    ));
                }
                match probe {
                    Err(m) => Err(WireError::InvalidPayload(PayloadFault::ReaderFailed(m))),
                    Ok(n) => {
                        if n != 0 {
                            return Err(WireError::InvalidPayload(PayloadFault::ReaderOverlong));
                        }
                        let s = bytes.as_slice();
                        let p = decode_xcdr1(s, deserialize, reencode);
                        assert(decodes_to(s, deserialize, reencode, p));
                        match p {
                            Ok(v) => Ok(v),
                            Err(f) => Err(WireError::InvalidPayload(f)),
                        }
                    },
                }
            },
        }
    }
}

} // verus!
