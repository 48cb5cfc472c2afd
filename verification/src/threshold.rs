//! Staleness-threshold configuration: how old the observer's tip may be
//! before its view of the mainchain is considered unreliable.

use vstd::prelude::*;

verus! {

/// Fallback threshold used when no explicit override is configured and the
/// mainchain parameter triple is incomplete or degenerate.
pub const DEFAULT_TIP_STALENESS_THRESHOLD_SECS: u64 = 4320;

/// Active-slots coefficient of the mainchain: the probability that a slot
/// produces a block, held exactly as the ratio `numerator / denominator`.
#[derive(Clone, Copy, Debug, PartialEq, Eq)]
pub struct ActiveSlotsCoeff {
    pub numerator: u64,
    pub denominator: u64,
}

impl ActiveSlotsCoeff {
    /// The ratio denotes a positive, well-formed probability.
    pub open spec fn is_positive(self) -> bool {
        self.numerator > 0 && self.denominator > 0
    }

    pub fn new(numerator: u64, denominator: u64) -> (r: Self)
        ensures
            r.numerator == numerator,
            r.denominator == denominator,
    {
        ActiveSlotsCoeff { numerator, denominator }
    }
}

/// Threshold derived from the mainchain parameters, in whole seconds:
/// `floor(0.5 * k * slot_duration_millis / coeff / 1000)`. `k / coeff`
/// slots is the expected number of slots the chain needs to produce `k`
/// blocks; multiplying by the slot duration converts that to wall-clock
/// milliseconds, and halving gives a conservative "typically confirmed by
/// now" bound. With the coefficient as a ratio, the whole expression is the
/// single exact integer division below; truncation is deliberate, so that
/// the security boundary never grows past what was configured.
pub open spec fn derived_threshold_secs(
    k: u64,
    slot_duration_millis: u64,
    coeff: ActiveSlotsCoeff,
) -> int {
    (k * slot_duration_millis * coeff.denominator) / (2000 * coeff.numerator)
}

/// Configuration of the staleness threshold. Every field is optional; the
/// threshold falls back to a fixed default when the configuration decides
/// nothing.
#[derive(Clone, Copy, Debug, PartialEq, Eq)]
pub struct McHashBlockImportConfig {
    /// Explicit override for the threshold, in seconds. When present it is
    /// used verbatim and the mainchain parameters are ignored.
    pub mc_hash_tip_staleness_threshold_secs: Option<u64>,
    /// Mainchain security parameter `k`: the confirmation depth at which a
    /// mainchain block counts as stable.
    pub cardano_security_parameter: Option<u64>,
    /// Mainchain active-slots coefficient.
    pub cardano_active_slots_coeff: Option<ActiveSlotsCoeff>,
    /// Mainchain slot duration, in milliseconds.
    pub mc__slot_duration_millis: Option<u64>,
}

impl Default for McHashBlockImportConfig {
    /// A configuration that decides nothing: every threshold source absent.
    fn default() -> (r: Self)
        ensures
            r.mc_hash_tip_staleness_threshold_secs is None,
            r.cardano_security_parameter is None,
            r.cardano_active_slots_coeff is None,
            r.mc__slot_duration_millis is None,
    {
        McHashBlockImportConfig {
            mc_hash_tip_staleness_threshold_secs: None,
            cardano_security_parameter: None,
            cardano_active_slots_coeff: None,
            mc__slot_duration_millis: None,
        }
    }
}

impl McHashBlockImportConfig {
    /// The parameter triple is complete and the coefficient is a positive
    /// probability: only then can the threshold be derived.
    pub open spec fn has_derivation_params(self) -> bool {
        &&& self.cardano_security_parameter is Some
        &&& self.mc__slot_duration_millis is Some
        &&& self.cardano_active_slots_coeff is Some
        &&& self.cardano_active_slots_coeff->0.is_positive()
    }

    /// The threshold this configuration stands for, by precedence: the
    /// explicit override verbatim; else the derived value when the
    /// parameter triple allows it; else the fixed default.
    pub open spec fn threshold_spec(self) -> int {
        if self.mc_hash_tip_staleness_threshold_secs is Some {
            self.mc_hash_tip_staleness_threshold_secs->0 as int
        } else if self.has_derivation_params() {
            derived_threshold_secs(
                self.cardano_security_parameter->0,
                self.mc__slot_duration_millis->0,
                self.cardano_active_slots_coeff->0,
            )
        } else {
            DEFAULT_TIP_STALENESS_THRESHOLD_SECS as int
        }
    }

    /// Machine bound on the derivation: when the derived branch is taken,
    /// its 128-bit intermediate product and its 64-bit result must fit.
    pub open spec fn derivation_fits(self) -> bool {
        self.mc_hash_tip_staleness_threshold_secs is None && self.has_derivation_params() ==> {
            let k = self.cardano_security_parameter->0;
            let d = self.mc__slot_duration_millis->0;
            let coeff = self.cardano_active_slots_coeff->0;
            &&& k * d * coeff.denominator <= u128::MAX
            &&& derived_threshold_secs(k, d, coeff) <= u64::MAX
        }
    }

    /// Computes the tip staleness threshold in seconds.
    pub fn tip_staleness_threshold_secs(&self) -> (r: u64)
        requires
            self.derivation_fits(),
        ensures
            r == self.threshold_spec(),
    {
        if let Some(explicit) = self.mc_hash_tip_staleness_threshold_secs {
            return explicit;
        }
        if let (Some(k), Some(d), Some(coeff)) = (
            self.cardano_security_parameter,
            self.mc__slot_duration_millis,
            self.cardano_active_slots_coeff,
        ) {
            if coeff.numerator > 0 && coeff.denominator > 0 {
                proof {
                    let deni: int = coeff.denominator as int;
                    assert((k as int) * (d as int) <= (k as int) * (d as int) * deni)
                        by (nonlinear_arith)
                        requires
                            deni >= 1,
                            k as int >= 0,
                            d as int >= 0,
                    ;
                }
                let kd: u128 = (k as u128) * (d as u128);
                let numerator_total: u128 = kd * (coeff.denominator as u128);
                let denominator_total: u128 = 2000u128 * (coeff.numerator as u128);
                let t: u128 = numerator_total / denominator_total;
                return t as u64;
            }
        }
        DEFAULT_TIP_STALENESS_THRESHOLD_SECS
    }
}

/// The explicit override decides the threshold by itself: whatever the
/// other parameters hold, the configured value is used verbatim.
pub proof fn lemma_explicit_override_wins(config: McHashBlockImportConfig)
    requires
        config.mc_hash_tip_staleness_threshold_secs is Some,
    ensures
        config.threshold_spec() == config.mc_hash_tip_staleness_threshold_secs->0,
{
}

/// Without an override, an incomplete parameter triple or a degenerate
/// coefficient always yields the fixed default.
pub proof fn lemma_fallback_when_underivable(config: McHashBlockImportConfig)
    requires
        config.mc_hash_tip_staleness_threshold_secs is None,
        !config.has_derivation_params(),
    ensures
        config.threshold_spec() == DEFAULT_TIP_STALENESS_THRESHOLD_SECS,
{
}

} // verus!
