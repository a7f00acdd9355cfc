//! The discovery orchestrator's bookkeeping: which families run, and how
//! their results are combined.
//!
//! The caller runs each enabled family's discovery concurrently and hands
//! the per-family outcomes in; combining them is total — a family that
//! failed contributes nothing, a family that succeeded contributes its
//! lights, and the union is returned in the order the outcomes arrived.

use vstd::prelude::*;

use crate::config::CuteLightsConfig;
use crate::govee::GoveeIntegration;
use crate::hue::HueIntegration;
use crate::kasa::KasaIntegration;
use crate::light::Light;
use crate::LightError;

verus! {

/// What one family's discovery contributes: its lights on success, nothing
/// on failure.
pub open spec fn spec_contribution(outcome: Result<Vec<Light>, LightError>) -> Seq<Light> {
    match outcome {
        Ok(lights) => lights@,
        Err(_) => Seq::empty(),
    }
}

/// The union of the outcomes, in arrival order.
pub open spec fn spec_merge(outcomes: Seq<Result<Vec<Light>, LightError>>) -> Seq<Light>
    decreases outcomes.len(),
{
    if outcomes.len() == 0 {
        Seq::empty()
    } else {
        spec_contribution(outcomes[0]) + spec_merge(outcomes.subrange(1, outcomes.len() as int))
    }
}

/// Law (discovery tolerance): combining per-family outcomes is total and
/// never raises — every failed family contributes no lights, every
/// successful family contributes exactly its lights, in arrival order.
pub fn merge_outcomes(outcomes: Vec<Result<Vec<Light>, LightError>>) -> (r: Vec<Light>)
    ensures
        r@ == spec_merge(outcomes@),
{
    let ghost all = outcomes@;
    let mut rest = outcomes;
    let mut merged: Vec<Light> = Vec::new();
    proof {
        assert(merged@ + spec_merge(rest@) =~= spec_merge(all));
    }
    while rest.len() > 0
        invariant
            merged@ + spec_merge(rest@) == spec_merge(all),
        decreases rest@.len(),
    {
        let ghost rest_before = rest@;
        let outcome = rest.remove(0);
        proof {
            assert(rest@ =~= rest_before.subrange(1, rest_before.len() as int));
        }
        match outcome {
            Ok(mut lights) => {
                merged.append(&mut lights);
                proof {
                    assert(merged@ + spec_merge(rest@) =~= spec_merge(all));
                }
            },
            Err(_) => {
                proof {
                    assert(merged@ + spec_merge(rest@) =~= spec_merge(all));
                }
            },
        }
    }
    proof {
        assert(spec_merge(rest@) =~= Seq::empty());
        assert(merged@ =~= spec_merge(all));
    }
    merged
}

/// Which families an orchestration run schedules, by their preflights.
pub struct EnabledFamilies {
    pub kasa: bool,
    pub hue: bool,
    pub govee: bool,
}

/// The preflight of every family at once: each family is scheduled exactly
/// when its configuration passes its own preflight.
pub fn preflight_all(config: &CuteLightsConfig) -> (r: EnabledFamilies)
    ensures
        r.kasa == config.kasa.enabled,
        r.hue == (config.hue.enabled && config.hue.bridge_ip is Some && config.hue.username
            is Some),
        r.govee == config.govee.enabled,
{
    EnabledFamilies {
        kasa: KasaIntegration::preflight(config),
        hue: HueIntegration::preflight(config),
        govee: GoveeIntegration::preflight(config),
    }
}

} // verus!
