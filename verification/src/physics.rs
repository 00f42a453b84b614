//! The physics derivation engine: pure functions from a genome to the
//! derived quantities that the fitness evaluator consumes.
//!
//! The hardware constants of the simulation (speed of light, reduced Planck
//! constant, vacuum permittivity, Boltzmann constant, solar mass) are fixed
//! for every universe; here they appear pre-combined with the unit scales of
//! the genome into single integer coefficients, each documented with the
//! expression it stands for.  All scores are in micro units (`1e6` is `1.0`).

use vstd::prelude::*;

verus! {

use crate::genome::Genome;
use crate::num::{
    spec_isqrt, isqrt, spec_exp_neg_micro, exp_neg_micro, spec_log10_micro, log10_micro,
};

/// `4 * pi * eps0 * hbar * c` expressed so that the fine-structure ratio in
/// nano units is `charge^2 / ALPHA_DENOM` with the charge in `1e-26 C`
/// units: `3.5176729e-36 / (1e-52 * 1e-9)`.
pub const ALPHA_DENOM: u64 = 35_176_729;

/// Electromagnetic bond threshold: the Bohr radius
/// `4 pi eps0 hbar^2 / (m_e e^2)` is below one nanometre exactly when
/// `m_e * e^2` (mass in `1e-36 kg`, charge in `1e-26 C`) exceeds
/// `4 pi eps0 hbar^2 / 1e-9` rescaled by `1e88`.
pub const EM_BOND_MIN: u128 = 12_374_022_899_279_362_371;

/// Nuclear coefficient: the deuteron-analogue binding estimate
/// `alpha_s * m_p * c^2 * 0.0023` over the target binding energy
/// `2.22 MeV = 2.22 * 1.602e-13 J`, as a ratio in micro units it is
/// `strong * m_p * RATIO_NUM / RATIO_DEN` (strong in micro, mass in
/// `1e-36 kg`).
pub const RATIO_NUM: u64 = 5_812_377;
/// Denominator of the binding-energy ratio coefficient.
pub const RATIO_DEN: u128 = 10_000_000_000_000_000;
/// Cap on `strong * m_p` before the ratio computation; above it the ratio
/// is so far from 1 that the Gaussian term is zero anyway, and the cap
/// keeps the product inside 128 bits.
pub const NUCLEAR_PRODUCT_CAP: u128 = 10_000_000_000_000_000_000_000_000_000_000;
/// Relative error (micro units) beyond which the nuclear Gaussian term
/// underflows to zero.
pub const NUCLEAR_REL_CUT: u64 = 3_000_000;

/// Stellar coefficient: `m_p c^2 / (kB * 1.5e7 K)` in micro units is
/// `m_p * STELLAR_NUM / STELLAR_DEN` with the mass in `1e-36 kg` units.
pub const STELLAR_NUM: u64 = 43_397_715;
/// Denominator of the thermal-ratio coefficient.
pub const STELLAR_DEN: u64 = 100_000;
/// `pi` in micro units.
pub const PI_MICRO: u64 = 3_141_593;
/// Tunneling exponent (micro units) above which the fusion rate drops
/// below `1e-30` (`30 * ln 10`) and stellar viability is zero.
pub const TUNNEL_CUT: u64 = 69_077_552;
/// Cap on `alpha_nano * sqrt_milli` before scaling by pi; above it the
/// exponent already exceeds `TUNNEL_CUT`.
pub const TUNNEL_PRODUCT_CAP: u128 = 22_000_000_000_000;
/// Sigmoid midpoint of the smoothed fusion-rate gate: exponent 50.
pub const SIGMOID_MID: u64 = 50_000_000;
/// Sigmoid width of the smoothed fusion-rate gate: 10 in plain units.
pub const SIGMOID_WIDTH: u64 = 10;

/// Optimal strong coupling for heavy-element formation, `0.118` in micro
/// units.
pub const STRONG_OPT: u64 = 118_000;
/// Relative tolerance (micro units) of the triangular heavy-element window.
pub const HEAVY_TOL: u64 = 500_000;

/// `log10` (micro units) of the Chandrasekhar-analogue mass, less the
/// target `log10(8 solar masses)`, for unit genes:
/// `1.5 log10(hbar c) + 27 - 2 log10(2) + 72 - log10(8 * 1.989e30 kg)`.
pub const COMPACT_LOG_BASE: u64 = 28_946_061;
/// Twice the squared-sigma (micro units) of the compact-object Gaussian in
/// log-mass space (sigma is one decade).
pub const COMPACT_GAUSS_DIV: u64 = 2_000_000;
/// Divisor of the nuclear Gaussian exponent: `rel^2 / 0.5` with `rel` in
/// micro units.
pub const NUCLEAR_GAUSS_DIV: u64 = 500_000;

/// Mean molecular weight per electron entering the Chandrasekhar-analogue
/// denominator `(m_p * mu_e)^2`.
pub const MU_E: u64 = 2;

/// The proton-analogue mass `2 * up + down`.
pub open spec fn spec_mass_proton(g: Genome) -> int {
    2 * g.mass_up_quark + g.mass_down_quark
}

/// The neutron-analogue mass `up + 2 * down`.
pub open spec fn spec_mass_neutron(g: Genome) -> int {
    g.mass_up_quark + 2 * g.mass_down_quark
}

/// The fine-structure-like ratio `e^2 / (4 pi eps0 hbar c)` in nano units,
/// saturating at the 64-bit limit.
pub open spec fn spec_alpha_nano(g: Genome) -> int {
    let q = g.charge * g.charge / (ALPHA_DENOM as int);
    if q > u64::MAX {
        u64::MAX as int
    } else {
        q
    }
}

/// The Gaussian nuclear-stability term in micro units: closeness of the
/// deuteron-analogue binding estimate to the target binding energy.
pub open spec fn spec_nuclear_micro(g: Genome) -> int {
    let mp = spec_mass_proton(g);
    if mp <= 0 {
        0
    } else {
        let ap0 = g.strong_coupling * mp;
        let ap = if ap0 > NUCLEAR_PRODUCT_CAP { NUCLEAR_PRODUCT_CAP as int } else { ap0 };
        let ratio = ap * RATIO_NUM / (RATIO_DEN as int);
        let rel = if ratio >= 1_000_000 { ratio - 1_000_000 } else { 1_000_000 - ratio };
        if rel >= NUCLEAR_REL_CUT {
            0
        } else {
            spec_exp_neg_micro((rel * rel / (NUCLEAR_GAUSS_DIV as int)) as u64) as int
        }
    }
}

/// The smoothed stellar-viability term in micro units: a sigmoid of the
/// Gamow tunneling exponent
/// `sqrt(2 * (m_p / 2) * c^2 * (pi * alpha)^2 / (kB T_core))`.
pub open spec fn spec_stellar_micro(g: Genome) -> int {
    let mp = spec_mass_proton(g);
    if mp <= 0 {
        0
    } else {
        let inner = mp * STELLAR_NUM / (STELLAR_DEN as int);
        let sq = spec_isqrt(inner);
        let prod = spec_alpha_nano(g) * sq;
        if prod > NUCLEAR_PRODUCT_CAP {
            0
        } else if prod > TUNNEL_PRODUCT_CAP {
            0
        } else {
            let s = prod * PI_MICRO / 1_000_000_000_000;
            if s > TUNNEL_CUT {
                0
            } else if s >= SIGMOID_MID {
                let t = (s - SIGMOID_MID) / (SIGMOID_WIDTH as int);
                let e = spec_exp_neg_micro(t as u64) as int;
                1_000_000 * e / (1_000_000 + e)
            } else {
                let t = (SIGMOID_MID - s) / (SIGMOID_WIDTH as int);
                let e = spec_exp_neg_micro(t as u64) as int;
                1_000_000_000_000int / (1_000_000 + e)
            }
        }
    }
}

/// The triangular heavy-element viability in micro units: a linear ramp to
/// zero at half the optimal strong coupling's relative distance.
pub open spec fn spec_heavy_elements_micro(g: Genome) -> int {
    let a = g.strong_coupling;
    let diff = if a >= STRONG_OPT { a - STRONG_OPT } else { (STRONG_OPT - a) as int };
    let err = diff * 1_000_000 / (STRONG_OPT as int);
    if err < HEAVY_TOL {
        1_000_000 - err
    } else {
        0
    }
}

/// `log10` (micro units) of the Chandrasekhar-analogue mass threshold
/// `(hbar c / G)^1.5 / (m_p * mu_e)^2`; undefined for a vanishing
/// gravitational constant or proton analogue.
pub open spec fn spec_compact_log_mass_micro(g: Genome) -> Option<int> {
    let mp = spec_mass_proton(g);
    if g.grav == 0 || mp == 0 {
        None
    } else {
        Some(
            COMPACT_LOG_BASE - 3 * spec_log10_micro(g.grav) / 2 - 2 * spec_log10_micro(
                mp as u64,
            ),
        )
    }
}

/// The compact-object (reproductive-potential) Gaussian in micro units:
/// closeness of the Chandrasekhar-analogue mass to eight solar masses in
/// log-mass space, with a one-decade sigma.
pub open spec fn spec_black_hole_micro(g: Genome) -> int {
    match spec_compact_log_mass_micro(g) {
        Option::None => 0,
        Option::Some(l) => {
            let d = if l >= 0 { l } else { -l };
            let arg = d * d / (COMPACT_GAUSS_DIV as int);
            if arg > 0x100_0000 {
                0
            } else {
                spec_exp_neg_micro(arg as u64) as int
            }
        },
    }
}

/// A transient physics engine bound to one genome, carrying the derived
/// fine-structure ratio.
#[derive(Clone, Copy, PartialEq, Eq, Structural, Debug)]
pub struct PhysicsEngine {
    /// The genome the engine derives from.
    pub laws: Genome,
    /// The fine-structure-like ratio in nano units.
    pub alpha_nano: u64,
}

impl PhysicsEngine {
    /// The engine is bound to a well-formed genome and caches its ratio.
    pub open spec fn wf(&self) -> bool {
        &&& self.laws.wf()
        &&& self.alpha_nano == spec_alpha_nano(self.laws)
    }

    /// Binds an engine to a genome, deriving the fine-structure ratio.
    pub fn new(laws: Genome) -> (e: PhysicsEngine)
        requires
            laws.wf(),
        ensures
            e.laws == laws,
            e.wf(),
    {
        proof {
            assert(laws.charge * laws.charge <= u64::MAX * u64::MAX) by (nonlinear_arith)
                requires laws.charge <= u64::MAX;
        }
        let q: u128 = (laws.charge as u128) * (laws.charge as u128) / (ALPHA_DENOM as u128);
        let alpha_nano: u64 = if q > u64::MAX as u128 {
            u64::MAX
        } else {
            q as u64
        };
        PhysicsEngine { laws, alpha_nano }
    }

    /// The proton-analogue mass `2 * up + down` in `1e-36 kg` units.
    pub fn mass_proton_analog(&self) -> (r: u64)
        requires
            self.laws.wf(),
        ensures
            r == spec_mass_proton(self.laws),
            r >= 2,
    {
        2 * self.laws.mass_up_quark + self.laws.mass_down_quark
    }

    /// The neutron-analogue mass `up + 2 * down` in `1e-36 kg` units.
    pub fn mass_neutron_analog(&self) -> (r: u64)
        requires
            self.laws.wf(),
        ensures
            r == spec_mass_neutron(self.laws),
            r >= 2,
    {
        self.laws.mass_up_quark + 2 * self.laws.mass_down_quark
    }

    /// `log10` (micro units) of the Chandrasekhar-analogue mass threshold;
    /// always defined for a well-formed genome.
    pub fn chandrasekhar_log_mass(&self) -> (r: i64)
        requires
            self.wf(),
        ensures
            Some(r as int) == spec_compact_log_mass_micro(self.laws),
    {
        let mp: u64 = self.mass_proton_analog();
        let lg: u64 = log10_micro(self.laws.grav);
        let lp: u64 = log10_micro(mp);
        let v: i128 = (COMPACT_LOG_BASE as i128) - (3 * (lg as i128)) / 2 - 2 * (lp as i128);
        v as i64
    }

    /// The smoothed stellar-viability score in micro units.
    pub fn calculate_stellar_viability(&self) -> (r: u64)
        requires
            self.wf(),
        ensures
            r == spec_stellar_micro(self.laws),
            r <= 1_000_000,
    {
        let mp: u64 = self.mass_proton_analog();
        let inner: u128 = (mp as u128) * (STELLAR_NUM as u128) / (STELLAR_DEN as u128);
        let sq: u64 = isqrt(inner);
        proof {
            assert(inner <= 0x1_0000_0000_0000_0000_0000_0000u128);
            if sq > 0x1_0000_0000_0000 {
                assert(sq * sq > 0x1_0000_0000_0000u64 * 0x1_0000_0000_0000u64) by (nonlinear_arith)
                    requires sq > 0x1_0000_0000_0000u64;
            }
            assert(self.alpha_nano * sq <= u64::MAX * 0x1_0000_0000_0000u64) by (nonlinear_arith)
                requires self.alpha_nano <= u64::MAX && sq <= 0x1_0000_0000_0000u64;
        }
        let prod: u128 = (self.alpha_nano as u128) * (sq as u128);
        if prod > TUNNEL_PRODUCT_CAP {
            return 0;
        }
        proof {
            assert(prod * PI_MICRO <= 22_000_000_000_000u128 * PI_MICRO) by (nonlinear_arith)
                requires prod <= 22_000_000_000_000u128 && PI_MICRO == 3_141_593u64;
        }
        let s128: u128 = prod * (PI_MICRO as u128) / 1_000_000_000_000;
        if s128 > TUNNEL_CUT as u128 {
            return 0;
        }
        let s: u64 = s128 as u64;
        if s >= SIGMOID_MID {
            let t: u64 = (s - SIGMOID_MID) / SIGMOID_WIDTH;
            let e: u64 = exp_neg_micro(t);
            let num: u128 = 1_000_000u128 * (e as u128);
            let den: u128 = 1_000_000u128 + (e as u128);
            proof {
                assert(1_000_000int * e / (1_000_000int + e) <= 1_000_000int) by (nonlinear_arith)
                    requires e <= 1_000_000u64;
            }
            (num / den) as u64
        } else {
            let t: u64 = (SIGMOID_MID - s) / SIGMOID_WIDTH;
            let e: u64 = exp_neg_micro(t);
            let den: u128 = 1_000_000u128 + (e as u128);
            proof {
                assert(1_000_000_000_000int / (1_000_000int + e) <= 1_000_000int) by (nonlinear_arith)
                    requires e <= 1_000_000u64;
            }
            (1_000_000_000_000u128 / den) as u64
        }
    }

    /// The Gaussian nuclear-stability score in micro units.
    pub fn nuclear_stability_score(&self) -> (r: u64)
        requires
            self.wf(),
        ensures
            r == spec_nuclear_micro(self.laws),
            r <= 1_000_000,
    {
        let mp: u64 = self.mass_proton_analog();
        proof {
            assert(self.laws.strong_coupling * mp <= u64::MAX * u64::MAX) by (nonlinear_arith)
                requires self.laws.strong_coupling <= u64::MAX && mp <= u64::MAX;
        }
        let ap0: u128 = (self.laws.strong_coupling as u128) * (mp as u128);
        let ap: u128 = if ap0 > NUCLEAR_PRODUCT_CAP {
            NUCLEAR_PRODUCT_CAP
        } else {
            ap0
        };
        proof {
            assert(ap * RATIO_NUM <= NUCLEAR_PRODUCT_CAP * RATIO_NUM) by (nonlinear_arith)
                requires ap <= NUCLEAR_PRODUCT_CAP;
        }
        let ratio: u128 = ap * (RATIO_NUM as u128) / RATIO_DEN;
        let rel: u128 = if ratio >= 1_000_000 {
            ratio - 1_000_000
        } else {
            1_000_000 - ratio
        };
        if rel >= NUCLEAR_REL_CUT as u128 {
            0
        } else {
            let rel64: u64 = rel as u64;
            proof {
                assert(rel64 * rel64 <= 3_000_000u64 * 3_000_000u64) by (nonlinear_arith)
                    requires rel64 <= 3_000_000u64;
            }
            exp_neg_micro(rel64 * rel64 / NUCLEAR_GAUSS_DIV)
        }
    }

    /// The triangular heavy-element viability score in micro units.
    pub fn heavy_elements_viability(&self) -> (r: u64)
        requires
            self.wf(),
        ensures
            r == spec_heavy_elements_micro(self.laws),
            r <= 1_000_000,
    {
        let a: u64 = self.laws.strong_coupling;
        let diff: u64 = if a >= STRONG_OPT {
            a - STRONG_OPT
        } else {
            STRONG_OPT - a
        };
        let err: u128 = (diff as u128) * 1_000_000 / (STRONG_OPT as u128);
        if err < HEAVY_TOL as u128 {
            1_000_000 - (err as u64)
        } else {
            0
        }
    }

    /// The compact-object (reproductive-potential) Gaussian score in micro
    /// units.
    pub fn calculate_black_hole_potential(&self) -> (r: u64)
        requires
            self.wf(),
        ensures
            r == spec_black_hole_micro(self.laws),
            r <= 1_000_000,
    {
        let l: i64 = self.chandrasekhar_log_mass();
        let d: u64 = if l >= 0 {
            l as u64
        } else {
            ((-(l as i128)) as u64)
        };
        proof {
            assert(d * d <= u64::MAX * u64::MAX) by (nonlinear_arith)
                requires d <= u64::MAX;
        }
        let arg: u128 = (d as u128) * (d as u128) / (COMPACT_GAUSS_DIV as u128);
        if arg > 0x100_0000 {
            0
        } else {
            exp_neg_micro(arg as u64)
        }
    }
}

/// A positive charge yields a strictly positive fine-structure ratio; the
/// threshold is where the nano-unit ratio rounds up from zero, about
/// `5.9e-23 C`.
pub proof fn lemma_alpha_positive(g: Genome)
    requires
        g.charge >= 5_931,
    ensures
        spec_alpha_nano(g) > 0,
{
    assert(g.charge * g.charge >= 5_931int * 5_931int) by (nonlinear_arith)
        requires g.charge >= 5_931u64;
}

/// Derivation is idempotent: equal genomes yield equal derived quantities,
/// with no hidden state.
pub proof fn lemma_derivation_idempotent(g1: Genome, g2: Genome)
    requires
        g1 == g2,
    ensures
        spec_alpha_nano(g1) == spec_alpha_nano(g2),
        spec_mass_proton(g1) == spec_mass_proton(g2),
        spec_mass_neutron(g1) == spec_mass_neutron(g2),
        spec_nuclear_micro(g1) == spec_nuclear_micro(g2),
        spec_stellar_micro(g1) == spec_stellar_micro(g2),
        spec_heavy_elements_micro(g1) == spec_heavy_elements_micro(g2),
        spec_compact_log_mass_micro(g1) == spec_compact_log_mass_micro(g2),
        spec_black_hole_micro(g1) == spec_black_hole_micro(g2),
{
}

} // verus!
