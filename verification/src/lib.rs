//! Strict OMG IDL XCDR1 little-endian payload profile for uProtocol selected wires.
//!
//! A payload is one complete DDS SerializedPayload: a four-byte encapsulation
//! header followed by one XCDR1 value and canonical zero padding. Only `CDR_LE`
//! (`0x0001`) and `PL_CDR_LE` (`0x0003`) are accepted, big-endian and XCDR2
//! representations are rejected before the Dust DDS decoder runs, and a decoded
//! value must re-encode to exactly the input bytes.

pub mod codec;
pub mod encapsulation;
pub mod laws;
pub mod vehicle_status;
pub mod wire;

pub use codec::{EncodeFault, Outcome, PayloadFault, WireError, MAX_OMG_IDL_PAYLOAD_LEN};
pub use encapsulation::{validate_encapsulation, EncapsulationFault};
pub use vehicle_status::{VehicleStatusV1, VEHICLE_STATUS_V1_IDL};
pub use wire::{
    EncodedLayout, ExactRead, OmgIdlWire, OMG_IDL_CONTENT_TYPE, OMG_IDL_ENCODING_ID, OMG_IDL_PAYLOAD_FAMILY_COMPACT_ID,
    OMG_IDL_PAYLOAD_FAMILY_LITERAL_ID, OMG_IDL_WIRE_COMPACT_ID, OMG_IDL_WIRE_LITERAL_ID,
};
