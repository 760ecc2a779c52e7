//! Thermistor voltage-divider model.
//!
//! A fixed 10 kΩ resistor is in series with a 10-kΩ-at-25-°C NTC thermistor
//! (beta 3950), thermistor on the high side, the supply across both, and the
//! measurement taken at their junction. This module carries voltages as
//! integer microvolts and resistances as integer milliohms, and covers the
//! exactly-checkable part of the model: the input-validity guard and the
//! divider resistance. The final beta-equation step (a logarithm) is floating
//! point and lives with the binary, fed from the resistance computed here.
//!
//! Invalid inputs are signalled by value (`None`, the sentinel), never by a
//! domain error inside the arithmetic: the guard short-circuits before any
//! division, and a resistance truncated to zero is rejected before a caller
//! could take its logarithm.

use vstd::prelude::*;

verus! {

/// Fixed series resistor of the divider, in milliohms (10 kΩ).
pub const R_FIXED_MILLIOHMS: u64 = 10_000_000;

/// Thermistor resistance at the reference temperature, in milliohms
/// (10 kΩ at 25 °C).
pub const R0_MILLIOHMS: u64 = 10_000_000;

/// Beta coefficient of the thermistor.
pub const THERMISTOR_BETA: u64 = 3950;

/// Largest supply voltage accepted, in microvolts (500 kV — far beyond any
/// divider this model describes; the bound only keeps the resistance
/// arithmetic inside 64 bits).
pub const MAX_SUPPLY_MICROVOLTS: i64 = 500_000_000_000;

/// The divider-circuit validity guard: the measured junction voltage must be
/// strictly positive, strictly below the supply, and not above the
/// converter's full-scale reference.
pub open spec fn spec_thermal_input_valid(
    supply_uv: int,
    reference_uv: int,
    measured_uv: int,
) -> bool {
    0 < measured_uv && measured_uv < supply_uv && measured_uv <= reference_uv
}

/// Thermistor resistance from the divider formula
/// `R = R_fixed * V_measured / (V_supply - V_measured)`, in milliohms,
/// truncated toward zero. Meaningful only where the guard holds.
pub open spec fn spec_divider_resistance_milliohms(supply_uv: int, measured_uv: int) -> int {
    (R_FIXED_MILLIOHMS * measured_uv) / (supply_uv - measured_uv)
}

/// Evaluate the validity guard on microvolt inputs.
pub fn thermal_input_valid(supply_uv: i64, reference_uv: i64, measured_uv: i64) -> (valid: bool)
    ensures
        valid == spec_thermal_input_valid(
            supply_uv as int,
            reference_uv as int,
            measured_uv as int,
        ),
{
    0 < measured_uv && measured_uv < supply_uv && measured_uv <= reference_uv
}

/// Thermistor resistance in milliohms, or `None` — the invalid sentinel —
/// exactly when the guard fails or the computed resistance is non-positive.
///
/// `Some` is returned if and only if the inputs pass the validity guard and
/// the truncated divider resistance is positive, and the value returned is
/// exactly that resistance.
pub fn thermistor_resistance_milliohms(
    supply_uv: i64,
    reference_uv: i64,
    measured_uv: i64,
) -> (resistance: Option<u64>)
    requires
        supply_uv <= MAX_SUPPLY_MICROVOLTS,
    ensures
        resistance is Some <==> spec_thermal_input_valid(
            supply_uv as int,
            reference_uv as int,
            measured_uv as int,
        ) && spec_divider_resistance_milliohms(supply_uv as int, measured_uv as int) > 0,
        resistance matches Some(r) ==> r == spec_divider_resistance_milliohms(
            supply_uv as int,
            measured_uv as int,
        ),
{
    if !thermal_input_valid(supply_uv, reference_uv, measured_uv) {
        return None;
    }
    let numerator: u64 = R_FIXED_MILLIOHMS * (measured_uv as u64);
    let denominator: u64 = (supply_uv - measured_uv) as u64;
    let resistance: u64 = numerator / denominator;
    if resistance == 0 {
        None
    } else {
        Some(resistance)
    }
}

} // verus!
