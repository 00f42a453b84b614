//! The fitness evaluator: a layered, gated scoring policy reducing the
//! derived quantities to one scalar score in `[0, 1]` (micro units) and a
//! complexity tier.
//!
//! The policy is the layered-gate-with-Gaussian-bonus variant: a hard
//! atomic-stability gate, then nuclear/stellar, heavy-element and
//! compact-object layers, each a fixed fraction of the score budget, with a
//! fixed cumulative threshold promoting the tier at every layer.  Ties and
//! degenerate configurations never fail: an unviable universe scores zero at
//! the lowest tier.

use vstd::prelude::*;

verus! {

use crate::genome::Genome;
use crate::physics::{
    PhysicsEngine, EM_BOND_MIN, spec_mass_proton, spec_mass_neutron, spec_nuclear_micro,
    spec_stellar_micro, spec_heavy_elements_micro, spec_black_hole_micro,
};

/// Cap on the atomic-stability margin term, `0.1` in micro units.
pub const ATOMIC_CAP: u64 = 100_000;
/// Bonus for a stable electromagnetic bond (Bohr radius under a
/// nanometre), `0.1` in micro units.
pub const EM_BONUS: u64 = 100_000;
/// Cumulative score admitting the chemical tier, `0.15` in micro units.
pub const TIER1_GATE: u64 = 150_000;
/// Cumulative score admitting the stellar tier, `0.4` in micro units.
pub const TIER2_GATE: u64 = 400_000;
/// Cumulative score admitting the complex tier, `0.6` in micro units.
pub const TIER3_GATE: u64 = 600_000;
/// Cumulative score admitting the reproductive tier, `0.75` in micro units.
pub const TIER4_GATE: u64 = 750_000;

/// A viability score in micro units and the complexity tier reached.
#[derive(Clone, Copy, PartialEq, Eq, Structural, Debug)]
pub struct FitnessResult {
    /// Viability score, micro units, at most one million.
    pub score: u64,
    /// Complexity tier: 0 sterile, 1 chemical, 2 stellar, 3 complex, 4
    /// reproductive.
    pub tier: u8,
}

/// The layered scoring policy over the specification-level physics terms.
///
/// Gate 1 requires the proton analogue lighter than the neutron analogue
/// and a decay channel not trivially dominant; failing it is sterile with
/// score zero.  The atomic layer contributes the capped stability margin
/// and the electromagnetic bond bonus; the nuclear/stellar layer weighs its
/// Gaussian terms by `0.15` and `0.2`; the heavy-element layer by `0.25`;
/// the compact-object layer by `0.2`.
#[verifier::opaque]
pub open spec fn spec_fitness(g: Genome) -> FitnessResult {
    let mp = spec_mass_proton(g);
    let mn = spec_mass_neutron(g);
    if mp >= mn || mp + g.mass_electron <= mn {
        FitnessResult { score: 0, tier: 0 }
    } else {
        let atomic0 = (mn - mp) * 1_000_000 / mp;
        let atomic = if atomic0 > ATOMIC_CAP { ATOMIC_CAP as int } else { atomic0 };
        let em: int = if g.mass_electron * (g.charge * g.charge) > EM_BOND_MIN {
            EM_BONUS as int
        } else {
            0
        };
        let f1 = atomic + em;
        if f1 < TIER1_GATE {
            FitnessResult { score: f1 as u64, tier: 0 }
        } else {
            let f2 = f1 + spec_nuclear_micro(g) * 3 / 20 + spec_stellar_micro(g) / 5;
            if f2 < TIER2_GATE {
                FitnessResult { score: f2 as u64, tier: 1 }
            } else {
                let f3 = f2 + spec_heavy_elements_micro(g) / 4;
                if f3 < TIER3_GATE {
                    FitnessResult { score: f3 as u64, tier: 2 }
                } else {
                    let f4 = f3 + spec_black_hole_micro(g) / 5;
                    if f4 < TIER4_GATE {
                        FitnessResult { score: f4 as u64, tier: 3 }
                    } else {
                        FitnessResult { score: f4 as u64, tier: 4 }
                    }
                }
            }
        }
    }
}

/// Evaluates a genome's viability: the score and tier of `spec_fitness`.
pub fn calculate_fitness(g: &Genome) -> (r: FitnessResult)
    requires
        g.wf(),
    ensures
        r == spec_fitness(*g),
        r.score <= 1_000_000,
        r.tier <= 4,
{
    proof {
        reveal(spec_fitness);
    }
    let engine = PhysicsEngine::new(*g);
    let mp: u64 = engine.mass_proton_analog();
    let mn: u64 = engine.mass_neutron_analog();
    if mp >= mn || mp + g.mass_electron <= mn {
        return FitnessResult { score: 0, tier: 0 };
    }
    let atomic0: u128 = ((mn - mp) as u128) * 1_000_000 / (mp as u128);
    let atomic: u64 = if atomic0 > ATOMIC_CAP as u128 {
        ATOMIC_CAP
    } else {
        atomic0 as u64
    };
    proof {
        assert(g.charge * g.charge <= u64::MAX * u64::MAX) by (nonlinear_arith)
            requires g.charge <= u64::MAX;
    }
    let q: u128 = (g.charge as u128) * (g.charge as u128);
    let em: u64 = if q > EM_BOND_MIN {
        proof {
            assert(g.mass_electron * (g.charge * g.charge) >= 1int * (g.charge * g.charge))
                by (nonlinear_arith)
                requires g.mass_electron >= 1u64;
        }
        EM_BONUS
    } else {
        proof {
            assert(g.mass_electron * (g.charge * g.charge) <= 1_000_000_000_000_000_000int * (
            g.charge * g.charge)) by (nonlinear_arith)
                requires g.mass_electron <= 1_000_000_000_000_000_000u64;
        }
        let me_q: u128 = (g.mass_electron as u128) * q;
        if me_q > EM_BOND_MIN {
            EM_BONUS
        } else {
            0
        }
    };
    let f1: u64 = atomic + em;
    if f1 < TIER1_GATE {
        return FitnessResult { score: f1, tier: 0 };
    }
    let nuclear: u64 = engine.nuclear_stability_score();
    let stellar: u64 = engine.calculate_stellar_viability();
    let f2: u64 = f1 + nuclear * 3 / 20 + stellar / 5;
    if f2 < TIER2_GATE {
        return FitnessResult { score: f2, tier: 1 };
    }
    let heavy: u64 = engine.heavy_elements_viability();
    let f3: u64 = f2 + heavy / 4;
    if f3 < TIER3_GATE {
        return FitnessResult { score: f3, tier: 2 };
    }
    let bh: u64 = engine.calculate_black_hole_potential();
    let f4: u64 = f3 + bh / 5;
    if f4 < TIER4_GATE {
        return FitnessResult { score: f4, tier: 3 };
    }
    FitnessResult { score: f4, tier: 4 }
}

/// The human-readable name of a complexity tier.
pub fn universe_type_name(tier: u8) -> (name: &'static str)
    ensures
        tier == 0 ==> name@ == "Sterile"@,
        tier == 1 ==> name@ == "Chemical"@,
        tier == 2 ==> name@ == "Stellar"@,
        tier == 3 ==> name@ == "Complex"@,
        tier == 4 ==> name@ == "Reproductive"@,
        tier > 4 ==> name@ == "Unknown"@,
{
    match tier {
        0 => "Sterile",
        1 => "Chemical",
        2 => "Stellar",
        3 => "Complex",
        4 => "Reproductive",
        _ => "Unknown",
    }
}

/// Gate 1 in law form: any genome whose proton analogue is at least as
/// heavy as its neutron analogue scores exactly zero at the sterile tier.
pub proof fn lemma_unstable_is_sterile(g: Genome)
    requires
        spec_mass_proton(g) >= spec_mass_neutron(g),
    ensures
        spec_fitness(g).score == 0,
        spec_fitness(g).tier == 0,
{
    reveal(spec_fitness);
}

/// The dual of gate 1: a trivially dominant decay channel (proton plus
/// electron analogues no heavier than the neutron analogue) is sterile too.
pub proof fn lemma_decay_dominant_is_sterile(g: Genome)
    requires
        spec_mass_proton(g) + g.mass_electron <= spec_mass_neutron(g),
    ensures
        spec_fitness(g).score == 0,
        spec_fitness(g).tier == 0,
{
    reveal(spec_fitness);
}

} // verus!
