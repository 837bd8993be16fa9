//! The configuration matrix of the full simulation run: every preset, under three
//! purity overrides, three utility functions and five decay functions, at 700 m.

use vstd::prelude::*;

use crate::models::{DistanceDecay, PurityOverride, UtilityFunction, DEFAULT_SIGMA_M};

verus! {

/// One simulated configuration.
#[derive(Clone, Copy, Debug, PartialEq, Eq, Structural)]
pub struct SimConfig {
    pub preset_idx: usize,
    pub purity: PurityOverride,
    pub utility: UtilityFunction,
    pub decay: DistanceDecay,
    /// Walking radius in metres.
    pub sigma_m: u32,
}

/// Number of simulated configurations.
pub const SIM_CASES: usize = 270;

/// The purity overrides simulated, in order (impure is left out).
pub open spec fn sim_purity(i: int) -> PurityOverride {
    if i == 0 {
        PurityOverride::Default
    } else if i == 1 {
        PurityOverride::Normal
    } else {
        PurityOverride::Pure
    }
}

/// The utility functions simulated, in order.
pub open spec fn sim_utility(i: int) -> UtilityFunction {
    if i == 0 {
        UtilityFunction::CobbDouglas
    } else if i == 1 {
        UtilityFunction::Leontief
    } else {
        UtilityFunction::Linear
    }
}

/// The decay functions simulated, in order.
pub open spec fn sim_decay(i: int) -> DistanceDecay {
    if i == 0 {
        DistanceDecay::Gaussian
    } else if i == 1 {
        DistanceDecay::Exponential
    } else if i == 2 {
        DistanceDecay::PowerLaw
    } else if i == 3 {
        DistanceDecay::Linear
    } else {
        DistanceDecay::LogisticStep
    }
}

/// The configuration run in position `i`: presets outermost, then purity, utility,
/// and decay innermost.
pub open spec fn sim_config_at(i: int) -> SimConfig {
    SimConfig {
        preset_idx: (i / 45) as usize,
        purity: sim_purity((i % 45) / 15),
        utility: sim_utility((i % 15) / 5),
        decay: sim_decay(i % 5),
        sigma_m: 700,
    }
}

proof fn lemma_split_index(p: int, q: int, u: int, d: int)
    requires
        0 <= p,
        0 <= q < 3,
        0 <= u < 3,
        0 <= d < 5,
    ensures
        (45 * p + 15 * q + 5 * u + d) / 45 == p,
        ((45 * p + 15 * q + 5 * u + d) % 45) / 15 == q,
        ((45 * p + 15 * q + 5 * u + d) % 15) / 5 == u,
        (45 * p + 15 * q + 5 * u + d) % 5 == d,
{
    let i = 45 * p + 15 * q + 5 * u + d;
    vstd::arithmetic::div_mod::lemma_fundamental_div_mod_converse(i, 45, p, 15 * q + 5 * u + d);
    vstd::arithmetic::div_mod::lemma_fundamental_div_mod_converse(
        15 * q + 5 * u + d,
        15,
        q,
        5 * u + d,
    );
    vstd::arithmetic::div_mod::lemma_fundamental_div_mod_converse(i, 15, 3 * p + q, 5 * u + d);
    vstd::arithmetic::div_mod::lemma_fundamental_div_mod_converse(5 * u + d, 5, u, d);
    vstd::arithmetic::div_mod::lemma_fundamental_div_mod_converse(i, 5, 9 * p + 3 * q + u, d);
}

/// Law: every combination of preset, simulated purity, utility and decay is run, at
/// the position that `sim_config_at` gives it.
pub proof fn lemma_every_combination_simulated(p: int, q: int, u: int, d: int)
    requires
        0 <= p < 6,
        0 <= q < 3,
        0 <= u < 3,
        0 <= d < 5,
    ensures
        0 <= 45 * p + 15 * q + 5 * u + d < SIM_CASES,
        sim_config_at(45 * p + 15 * q + 5 * u + d) == (SimConfig {
            preset_idx: p as usize,
            purity: sim_purity(q),
            utility: sim_utility(u),
            decay: sim_decay(d),
            sigma_m: 700,
        }),
{
    lemma_split_index(p, q, u, d);
}

/// Every configuration of the simulation matrix, in run order.
pub fn simulation_configs() -> (v: Vec<SimConfig>)
    ensures
        v.len() == SIM_CASES,
        forall|i: int| 0 <= i < SIM_CASES ==> #[trigger] v@[i] == sim_config_at(i),
{
    let purities = [PurityOverride::Default, PurityOverride::Normal, PurityOverride::Pure];
    let utilities = [UtilityFunction::CobbDouglas, UtilityFunction::Leontief, UtilityFunction::Linear];
    let decays = [
        DistanceDecay::Gaussian,
        DistanceDecay::Exponential,
        DistanceDecay::PowerLaw,
        DistanceDecay::Linear,
        DistanceDecay::LogisticStep,
    ];
    let mut v: Vec<SimConfig> = Vec::new();
    let mut p: usize = 0;
    while p < 6
        invariant
            p <= 6,
            v.len() == 45 * p,
            forall|i: int| 0 <= i < v.len() ==> #[trigger] v@[i] == sim_config_at(i),
            purities@ == seq![PurityOverride::Default, PurityOverride::Normal, PurityOverride::Pure],
            utilities@ == seq![UtilityFunction::CobbDouglas, UtilityFunction::Leontief, UtilityFunction::Linear],
            decays@ == seq![DistanceDecay::Gaussian, DistanceDecay::Exponential, DistanceDecay::PowerLaw, DistanceDecay::Linear, DistanceDecay::LogisticStep],
        decreases 6 - p,
    {
        let mut q: usize = 0;
        while q < 3
            invariant
                p < 6,
                q <= 3,
                v.len() == 45 * p + 15 * q,
                forall|i: int| 0 <= i < v.len() ==> #[trigger] v@[i] == sim_config_at(i),
                purities@ == seq![PurityOverride::Default, PurityOverride::Normal, PurityOverride::Pure],
                utilities@ == seq![UtilityFunction::CobbDouglas, UtilityFunction::Leontief, UtilityFunction::Linear],
                decays@ == seq![DistanceDecay::Gaussian, DistanceDecay::Exponential, DistanceDecay::PowerLaw, DistanceDecay::Linear, DistanceDecay::LogisticStep],
            decreases 3 - q,
        {
            let mut u: usize = 0;
            while u < 3
                invariant
                    p < 6,
                    q < 3,
                    u <= 3,
                    v.len() == 45 * p + 15 * q + 5 * u,
                    forall|i: int| 0 <= i < v.len() ==> #[trigger] v@[i] == sim_config_at(i),
                    purities@ == seq![PurityOverride::Default, PurityOverride::Normal, PurityOverride::Pure],
                    utilities@ == seq![UtilityFunction::CobbDouglas, UtilityFunction::Leontief, UtilityFunction::Linear],
                    decays@ == seq![DistanceDecay::Gaussian, DistanceDecay::Exponential, DistanceDecay::PowerLaw, DistanceDecay::Linear, DistanceDecay::LogisticStep],
                decreases 3 - u,
            {
                let mut d: usize = 0;
                while d < 5
                    invariant
                        p < 6,
                        q < 3,
                        u < 3,
                        d <= 5,
                        v.len() == 45 * p + 15 * q + 5 * u + d,
                        forall|i: int| 0 <= i < v.len() ==> #[trigger] v@[i] == sim_config_at(i),
                        purities@ == seq![PurityOverride::Default, PurityOverride::Normal, PurityOverride::Pure],
                        utilities@ == seq![UtilityFunction::CobbDouglas, UtilityFunction::Leontief, UtilityFunction::Linear],
                        decays@ == seq![DistanceDecay::Gaussian, DistanceDecay::Exponential, DistanceDecay::PowerLaw, DistanceDecay::Linear, DistanceDecay::LogisticStep],
                    decreases 5 - d,
                {
                    let c = SimConfig {
                        preset_idx: p,
                        purity: purities[q],
                        utility: utilities[u],
                        decay: decays[d],
                        sigma_m: DEFAULT_SIGMA_M,
                    };
                    proof {
                        lemma_split_index(p as int, q as int, u as int, d as int);
                        assert(c == sim_config_at(v.len() as int));
                    }
                    v.push(c);
                    d = d + 1;
                }
                u = u + 1;
            }
            q = q + 1;
        }
        p = p + 1;
    }
    v
}

/// The name of a simulated purity override in the report.
pub fn purity_override_name(p: PurityOverride) -> (r: &'static str)
    ensures
        r@ == match p {
            PurityOverride::Default => "Default"@,
            PurityOverride::Impure => "Impure"@,
            PurityOverride::Normal => "Normal"@,
            PurityOverride::Pure => "Pure"@,
        },
{
    match p {
        PurityOverride::Default => "Default",
        PurityOverride::Impure => "Impure",
        PurityOverride::Normal => "Normal",
        PurityOverride::Pure => "Pure",
    }
}

} // verus!
