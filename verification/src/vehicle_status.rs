//! The reference payload type and its normative IDL definition.

use vstd::prelude::*;

verus! {

/// Normative IDL of [`VehicleStatusV1`]: a final struct whose fields, in this
/// order, map to `u64`, `i32`, `i32`, `u8` and `bool`.
pub const VEHICLE_STATUS_V1_IDL: &'static str = "@final\nstruct VehicleStatusV1 {\n    unsigned long long stamp_ns;\n    long speed_mmps;\n    long steering_mdeg;\n    octet gear;\n    boolean park_brake;\n};\n";

/// Reference payload defined normatively by [`VEHICLE_STATUS_V1_IDL`].
#[derive(Clone, Debug, PartialEq, Eq, Structural)]
pub struct VehicleStatusV1 {
    /// Sample timestamp in nanoseconds.
    pub stamp_ns: u64,
    /// Signed speed in millimeters per second.
    pub speed_mmps: i32,
    /// Steering angle in millidegrees.
    pub steering_mdeg: i32,
    /// Gear selector code.
    pub gear: u8,
    /// Whether the parking brake is engaged.
    pub park_brake: bool,
}

impl VehicleStatusV1 {
    /// Builds a deterministic fixture using wrapping timestamp arithmetic.
    pub fn fixture(seed: u64) -> (r: Self)
        ensures
            r.stamp_ns == (seed as int * 1_000_003) % 0x1_0000_0000_0000_0000,
            r.speed_mmps == seed % 40_000 - 20_000,
            r.steering_mdeg == seed % 90_000 - 45_000,
            r.gear == seed % 8,
            r.park_brake == (seed % 2 == 0),
    {
        Self {
            stamp_ns: seed.wrapping_mul(1_000_003),
            speed_mmps: ((seed % 40_000) as i32) - 20_000,
            steering_mdeg: ((seed % 90_000) as i32) - 45_000,
            gear: (seed % 8) as u8,
            park_brake: seed.is_multiple_of(2),
        }
    }
}

} // verus!
