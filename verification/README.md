# up-wire-omgidl

A strict OMG IDL XCDR1 little-endian selected-wire payload codec for Eclipse
uProtocol, with its accept/reject logic verified in Verus.

A payload is one complete DDS SerializedPayload: a four-byte encapsulation
header (`CDR_LE` or `PL_CDR_LE`, options `[0, p]` with `p <= 3`), one XCDR1
value, and `p` zero padding bytes to a four-byte total. Payloads are limited to
16 MiB. A decoded value must re-encode to exactly the input bytes.

## Layout

- `src/encapsulation.rs` — the strict header/padding profile, as a spec
  predicate and a verified checker.
- `src/codec.rs` — the encode and decode pipelines. The Dust DDS serializer and
  deserializer are passed in as closures reporting an `Outcome`; the pipeline
  decides acceptance and is verified for every outcome.
- `src/wire.rs` — `OmgIdlWire`: layout probe, prefix encode, owned encode
  (into `bytes::Bytes`), contiguous decode and exact-length reader decode.
- `src/vehicle_status.rs` — the reference `VehicleStatusV1` type, its fixture
  builder and its normative IDL text.
- `src/laws.rs` — proved properties that relate the functions.
- `app/lib.rs` — the up-rust trait implementations, Dust DDS type support,
  panic containment around Dust DDS calls, and reader I/O.

## Tests

Dust DDS type support for `VehicleStatusV1` comes from `#[derive(DdsType)]`,
which the tests cannot use, and a hand-written type description needs the
`MemberDescriptor` field spelled `r#type`, which the tests cannot use either.
So the comparison of Dust DDS's own encoding of `VehicleStatusV1` with the
independently authored 24-byte golden fixture is not run here. The scenario
tests for `VehicleStatusV1` run the library against a stand-in XCDR1 codec
written from the OMG alignment rules. `tests/dust_codec.rs` runs the library
against the real Dust DDS serializer and deserializer on Dust's own
`Duration` and `PresentationQosPolicy` types.
