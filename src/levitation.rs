//! Operating modes and the per-tick state snapshot of the levitation system,
//! and the wireless-power efficiency estimate.

use vstd::prelude::*;
use crate::constants::ONE_PPM;
use crate::arith::div_floor;

verus! {

/// Simplified mode, for transition tracking.
#[derive(Debug, Clone, Copy, PartialEq, Eq, Structural)]
pub enum LevitationModeSimple {
    Float,
    Charging,
    Bobble,
    Landing,
    Lifted,
}

/// Levitation operating modes, each with its own parameters.
#[derive(Debug, Clone, Copy, PartialEq, Eq, Structural)]
pub enum LevitationMode {
    /// Normal operation at the given height (µm).
    Float { height_um: i32 },
    /// Sunk for charging: target height (µm) and the power delivered (mW).
    Charging { target_height_um: i32, charge_rate_mw: i32 },
    /// Oscillating around a center (µm) with an amplitude (µm) and a
    /// frequency (mHz).
    Bobble { center_um: i32, amplitude_um: i32, frequency_mhz: i32 },
    /// Controlled descent from a height (µm) at a rate (µm/s).
    Landing { current_height_um: i32, descent_rate_um_s: i32 },
    /// Power removed: passive soft landing.
    EmergencyLanding,
    /// Orb removed from the base.
    Lifted,
    /// Moving between two modes; progress in millionths.
    Transitioning { from: LevitationModeSimple, to: LevitationModeSimple, progress_ppm: i32 },
}

impl Default for LevitationMode {
    fn default() -> (r: Self)
        ensures
            r == LevitationMode::Lifted,
    {
        LevitationMode::Lifted
    }
}

/// Snapshot of the levitation system for one tick.
#[derive(Debug, Clone, Copy, PartialEq, Eq, Structural)]
pub struct LevitationState {
    /// Height above the base (µm).
    pub height_um: i32,
    /// Vertical velocity (µm/s, positive rising).
    pub velocity_um_s: i32,
    /// Peak-to-peak oscillation amplitude (µm).
    pub oscillation_amplitude_um: i32,
    /// Electromagnet coil temperature (m°C).
    pub electromagnet_temp_mc: i32,
    /// Wireless-power coil temperature (m°C).
    pub wpt_coil_temp_mc: i32,
    /// Power supply reports OK.
    pub power_supply_ok: bool,
    /// Operating mode.
    pub mode: LevitationMode,
    /// Orb detected on the base.
    pub orb_present: bool,
    /// No excessive oscillation.
    pub stable: bool,
}

/// The all-zero snapshot, in mode `Lifted`.
pub open spec fn initial_state() -> LevitationState {
    LevitationState {
        height_um: 0,
        velocity_um_s: 0,
        oscillation_amplitude_um: 0,
        electromagnet_temp_mc: 0,
        wpt_coil_temp_mc: 0,
        power_supply_ok: false,
        mode: LevitationMode::Lifted,
        orb_present: false,
        stable: false,
    }
}

impl Default for LevitationState {
    fn default() -> (r: Self)
        ensures
            r == initial_state(),
    {
        LevitationState {
            height_um: 0,
            velocity_um_s: 0,
            oscillation_amplitude_um: 0,
            electromagnet_temp_mc: 0,
            wpt_coil_temp_mc: 0,
            power_supply_ok: false,
            mode: LevitationMode::Lifted,
            orb_present: false,
            stable: false,
        }
    }
}

/// Product of the quality factors of the transmit (200) and receive (150) coils.
pub const COIL_Q_PRODUCT: i64 = 30_000;

/// Efficiency `k²Q / (1 + k²Q)` of a coupling `k`, both in millionths.
pub open spec fn efficiency_ppm(k_ppm: int) -> int {
    ONE_PPM * (k_ppm * k_ppm * COIL_Q_PRODUCT) / (ONE_PPM * ONE_PPM + k_ppm * k_ppm * COIL_Q_PRODUCT)
}

/// Estimates the wireless-power efficiency (millionths) from a coupling
/// coefficient (millionths), for transmit and receive quality factors of
/// 200 and 150.
pub fn estimate_efficiency(k_ppm: i32) -> (r: i64)
    ensures
        r == efficiency_ppm(k_ppm as int),
        0 <= r < ONE_PPM,
{
    proof {
        assert(0 <= k_ppm as int * k_ppm as int <= 0x4000_0000_0000_0000) by (nonlinear_arith)
            requires
                -0x8000_0000 <= k_ppm <= 0x8000_0000,
        ;
    }
    let kk = k_ppm as i128 * k_ppm as i128;
    let num = kk * COIL_Q_PRODUCT as i128;
    let one = ONE_PPM as i128;
    let den = one * one + num;
    proof {
        let n = ONE_PPM as int * num;
        assert(0 <= n < ONE_PPM as int * den) by (nonlinear_arith)
            requires
                n == ONE_PPM as int * num,
                num >= 0,
                den == ONE_PPM as int * ONE_PPM as int + num,
        ;
        vstd::arithmetic::div_mod::lemma_div_is_ordered(0, n, den as int);
        vstd::arithmetic::div_mod::lemma_div_is_ordered(n, ONE_PPM as int * den - 1, den as int);
        vstd::arithmetic::div_mod::lemma_fundamental_div_mod(ONE_PPM as int * den - 1, den as int);
        vstd::arithmetic::div_mod::lemma_mod_bound(ONE_PPM as int * den - 1, den as int);
        let q = (ONE_PPM as int * den - 1) / den as int;
        assert(q < ONE_PPM) by (nonlinear_arith)
            requires
                den > 0,
                ONE_PPM as int * den - 1 == den * q + (ONE_PPM as int * den - 1) % (den as int),
                0 <= (ONE_PPM as int * den - 1) % (den as int),
        ;
    }
    div_floor(one * num, den) as i64
}

} // verus!
