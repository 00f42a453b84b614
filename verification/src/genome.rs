//! The genome of a candidate universe: its free physical parameters, the
//! prior ranges they are drawn from, and the mutation operator.
//!
//! Every parameter is a positive integer in a fixed decimal unit chosen so
//! that the whole prior range is representable exactly:
//!
//! * gravitational constant: units of `1e-18 m^3 kg^-1 s^-2`;
//! * elementary charge: units of `1e-26 C`;
//! * strong coupling: micro units (`1e-6`);
//! * weak coupling: pico units (`1e-12`);
//! * rest masses: units of `1e-36 kg`.

use vstd::prelude::*;

verus! {

use crate::rng::{RandomStream, spec_stream_next_state, spec_stream_output, spec_stream_range};

/// Upper bound on every gene in its own unit; keeps all derived arithmetic
/// inside 128 bits.
pub const GENE_MAX: u64 = 1_000_000_000_000_000_000;

/// Prior range of the gravitational constant, `[6.674e-11, 6.674e-10)` SI.
pub const GRAV_MIN: u64 = 66_740_000;
/// Upper end (exclusive) of the gravitational-constant prior.
pub const GRAV_MAX: u64 = 667_400_000;
/// Prior range of the elementary charge, `[0.5e-19, 2.5e-19)` C.
pub const CHARGE_MIN: u64 = 5_000_000;
/// Upper end (exclusive) of the charge prior.
pub const CHARGE_MAX: u64 = 25_000_000;
/// Prior range of the strong coupling, `[0.1, 2.0)`.
pub const STRONG_MIN: u64 = 100_000;
/// Upper end (exclusive) of the strong-coupling prior.
pub const STRONG_MAX: u64 = 2_000_000;
/// Prior range of the weak coupling, `[1e-9, 1e-4)`.
pub const WEAK_MIN: u64 = 1_000;
/// Upper end (exclusive) of the weak-coupling prior.
pub const WEAK_MAX: u64 = 100_000_000;
/// Prior range of the up-quark analogue mass, `[1e-30, 6e-30)` kg.
pub const MASS_UP_MIN: u64 = 1_000_000;
/// Upper end (exclusive) of the up-quark mass prior.
pub const MASS_UP_MAX: u64 = 6_000_000;
/// Prior range of the down-quark analogue mass, `[1e-30, 1.3e-29)` kg.
pub const MASS_DOWN_MIN: u64 = 1_000_000;
/// Upper end (exclusive) of the down-quark mass prior.
pub const MASS_DOWN_MAX: u64 = 13_000_000;
/// Prior range of the electron analogue mass, `[1e-31, 1e-30)` kg.
pub const MASS_ELECTRON_MIN: u64 = 100_000;
/// Upper end (exclusive) of the electron mass prior.
pub const MASS_ELECTRON_MAX: u64 = 1_000_000;
/// Prior range of the strange-quark analogue mass, `[1e-29, 1e-28)` kg.
pub const MASS_STRANGE_MIN: u64 = 10_000_000;
/// Upper end (exclusive) of the strange-quark mass prior.
pub const MASS_STRANGE_MAX: u64 = 100_000_000;
/// Prior range of the charm-quark analogue mass, `[1e-29, 1e-27)` kg.
pub const MASS_CHARM_MIN: u64 = 10_000_000;
/// Upper end (exclusive) of the charm-quark mass prior.
pub const MASS_CHARM_MAX: u64 = 1_000_000_000;
/// Prior range of the muon analogue mass, `[1e-29, 1e-27)` kg.
pub const MASS_MUON_MIN: u64 = 10_000_000;
/// Upper end (exclusive) of the muon mass prior.
pub const MASS_MUON_MAX: u64 = 1_000_000_000;
/// Prior range of the bottom-quark analogue mass, `[1e-28, 1e-27)` kg.
pub const MASS_BOTTOM_MIN: u64 = 100_000_000;
/// Upper end (exclusive) of the bottom-quark mass prior.
pub const MASS_BOTTOM_MAX: u64 = 1_000_000_000;
/// Prior range of the top-quark analogue mass, `[1e-28, 1e-25)` kg.
pub const MASS_TOP_MIN: u64 = 100_000_000;
/// Upper end (exclusive) of the top-quark mass prior.
pub const MASS_TOP_MAX: u64 = 100_000_000_000;
/// Prior range of the tauon analogue mass, `[1e-28, 1e-26)` kg.
pub const MASS_TAUON_MIN: u64 = 100_000_000;
/// Upper end (exclusive) of the tauon mass prior.
pub const MASS_TAUON_MAX: u64 = 10_000_000_000;

/// Lower end of the drift factor range, `0.95` in micro units.
pub const DRIFT_MIN: u64 = 950_000;
/// Width of the drift factor range: drift scales by `[0.95, 1.05)`.
pub const DRIFT_SPAN: u64 = 100_000;

/// The free physical parameters of one candidate universe.  Immutable once
/// constructed: mutation returns a fresh genome.
#[derive(Clone, Copy, PartialEq, Eq, Structural, Debug)]
pub struct Genome {
    /// Gravitational constant, units of `1e-18` SI.
    pub grav: u64,
    /// Elementary charge, units of `1e-26 C`.
    pub charge: u64,
    /// Strong coupling, micro units.
    pub strong_coupling: u64,
    /// Weak coupling, pico units.
    pub weak_coupling: u64,
    /// Up-quark analogue rest mass, units of `1e-36 kg`.
    pub mass_up_quark: u64,
    /// Down-quark analogue rest mass, units of `1e-36 kg`.
    pub mass_down_quark: u64,
    /// Electron analogue rest mass, units of `1e-36 kg`.
    pub mass_electron: u64,
    /// Charm-quark analogue rest mass, units of `1e-36 kg`.
    pub mass_charm_quark: u64,
    /// Strange-quark analogue rest mass, units of `1e-36 kg`.
    pub mass_strange_quark: u64,
    /// Muon analogue rest mass, units of `1e-36 kg`.
    pub mass_muon: u64,
    /// Top-quark analogue rest mass, units of `1e-36 kg`.
    pub mass_top_quark: u64,
    /// Bottom-quark analogue rest mass, units of `1e-36 kg`.
    pub mass_bottom_quark: u64,
    /// Tauon analogue rest mass, units of `1e-36 kg`.
    pub mass_tauon: u64,
}

impl Genome {
    /// Well-formedness: every gene is positive and within the global cap.
    pub open spec fn wf(&self) -> bool {
        &&& 1 <= self.grav <= GENE_MAX
        &&& 1 <= self.charge <= GENE_MAX
        &&& 1 <= self.strong_coupling <= GENE_MAX
        &&& 1 <= self.weak_coupling <= GENE_MAX
        &&& 1 <= self.mass_up_quark <= GENE_MAX
        &&& 1 <= self.mass_down_quark <= GENE_MAX
        &&& 1 <= self.mass_electron <= GENE_MAX
        &&& 1 <= self.mass_charm_quark <= GENE_MAX
        &&& 1 <= self.mass_strange_quark <= GENE_MAX
        &&& 1 <= self.mass_muon <= GENE_MAX
        &&& 1 <= self.mass_top_quark <= GENE_MAX
        &&& 1 <= self.mass_bottom_quark <= GENE_MAX
        &&& 1 <= self.mass_tauon <= GENE_MAX
    }

    /// Every gene inside its configured prior range.
    pub open spec fn in_prior_range(&self) -> bool {
        &&& GRAV_MIN <= self.grav < GRAV_MAX
        &&& CHARGE_MIN <= self.charge < CHARGE_MAX
        &&& STRONG_MIN <= self.strong_coupling < STRONG_MAX
        &&& WEAK_MIN <= self.weak_coupling < WEAK_MAX
        &&& MASS_UP_MIN <= self.mass_up_quark < MASS_UP_MAX
        &&& MASS_DOWN_MIN <= self.mass_down_quark < MASS_DOWN_MAX
        &&& MASS_ELECTRON_MIN <= self.mass_electron < MASS_ELECTRON_MAX
        &&& MASS_CHARM_MIN <= self.mass_charm_quark < MASS_CHARM_MAX
        &&& MASS_STRANGE_MIN <= self.mass_strange_quark < MASS_STRANGE_MAX
        &&& MASS_MUON_MIN <= self.mass_muon < MASS_MUON_MAX
        &&& MASS_TOP_MIN <= self.mass_top_quark < MASS_TOP_MAX
        &&& MASS_BOTTOM_MIN <= self.mass_bottom_quark < MASS_BOTTOM_MAX
        &&& MASS_TAUON_MIN <= self.mass_tauon < MASS_TAUON_MAX
    }

    /// Builds a genome from raw gene values, rejecting any gene that is zero
    /// or above the cap.
    #[allow(clippy::too_many_arguments)]
    pub fn new(
        grav: u64,
        charge: u64,
        strong_coupling: u64,
        weak_coupling: u64,
        mass_up_quark: u64,
        mass_down_quark: u64,
        mass_electron: u64,
        mass_charm_quark: u64,
        mass_strange_quark: u64,
        mass_muon: u64,
        mass_top_quark: u64,
        mass_bottom_quark: u64,
        mass_tauon: u64,
    ) -> (r: Option<Genome>)
        ensures
            r matches Some(g) ==> g == (Genome {
                grav,
                charge,
                strong_coupling,
                weak_coupling,
                mass_up_quark,
                mass_down_quark,
                mass_electron,
                mass_charm_quark,
                mass_strange_quark,
                mass_muon,
                mass_top_quark,
                mass_bottom_quark,
                mass_tauon,
            }) && g.wf(),
            r is Some <==> (Genome {
                grav,
                charge,
                strong_coupling,
                weak_coupling,
                mass_up_quark,
                mass_down_quark,
                mass_electron,
                mass_charm_quark,
                mass_strange_quark,
                mass_muon,
                mass_top_quark,
                mass_bottom_quark,
                mass_tauon,
            }).wf(),
    {
        let g = Genome {
            grav,
            charge,
            strong_coupling,
            weak_coupling,
            mass_up_quark,
            mass_down_quark,
            mass_electron,
            mass_charm_quark,
            mass_strange_quark,
            mass_muon,
            mass_top_quark,
            mass_bottom_quark,
            mass_tauon,
        };
        if grav >= 1 && grav <= GENE_MAX
            && charge >= 1 && charge <= GENE_MAX
            && strong_coupling >= 1 && strong_coupling <= GENE_MAX
            && weak_coupling >= 1 && weak_coupling <= GENE_MAX
            && mass_up_quark >= 1 && mass_up_quark <= GENE_MAX
            && mass_down_quark >= 1 && mass_down_quark <= GENE_MAX
            && mass_electron >= 1 && mass_electron <= GENE_MAX
            && mass_charm_quark >= 1 && mass_charm_quark <= GENE_MAX
            && mass_strange_quark >= 1 && mass_strange_quark <= GENE_MAX
            && mass_muon >= 1 && mass_muon <= GENE_MAX
            && mass_top_quark >= 1 && mass_top_quark <= GENE_MAX
            && mass_bottom_quark >= 1 && mass_bottom_quark <= GENE_MAX
            && mass_tauon >= 1 && mass_tauon <= GENE_MAX
        {
            Some(g)
        } else {
            None
        }
    }
}

/// A drift mutation: the gene scaled by `factor` micro units, clamped into
/// `[1, GENE_MAX]`.
pub open spec fn spec_drift(v: u64, factor: u64) -> u64 {
    let scaled = v * factor / 1_000_000;
    if scaled < 1 {
        1
    } else if scaled > GENE_MAX {
        GENE_MAX
    } else {
        scaled as u64
    }
}

/// Applies a drift factor (micro units) to a gene, clamping the result into
/// `[1, GENE_MAX]`.
pub fn drift(v: u64, factor: u64) -> (r: u64)
    ensures
        r == spec_drift(v, factor),
        1 <= r <= GENE_MAX,
{
    proof {
        assert(v * factor <= u64::MAX * u64::MAX) by (nonlinear_arith)
            requires v <= u64::MAX && factor <= u64::MAX;
    }
    let p: u128 = (v as u128) * (factor as u128);
    let q: u128 = p / 1_000_000;
    if q < 1 {
        1
    } else if q > GENE_MAX as u128 {
        GENE_MAX
    } else {
        q as u64
    }
}

/// One gene's mutation: with probability `rate` (micro units) the gene is
/// altered; an altered gene jumps to a fresh uniform draw from `[lo, hi)`
/// with probability `hyper`, and otherwise drifts by a factor uniform in
/// `[0.95, 1.05)`.  The pair is the new gene and the stream state after the
/// draws.
pub open spec fn spec_mutate_gene(v: u64, lo: u64, hi: u64, rate: u64, hyper: u64, s: u64) -> (u64, u64) {
    let d1 = spec_stream_output(s);
    let s1 = spec_stream_next_state(s);
    if d1 % 1_000_000 < rate {
        let d2 = spec_stream_output(s1);
        let s2 = spec_stream_next_state(s1);
        let d3 = spec_stream_output(s2);
        let s3 = spec_stream_next_state(s2);
        if d2 % 1_000_000 < hyper {
            (spec_stream_range(s2, lo, hi), s3)
        } else {
            (spec_drift(v, (DRIFT_MIN + d3 % DRIFT_SPAN) as u64), s3)
        }
    } else {
        (v, s1)
    }
}

/// Mutates one gene as `spec_mutate_gene` prescribes.
pub fn mutate_gene(v: u64, lo: u64, hi: u64, rate: u64, hyper: u64, rng: &mut RandomStream) -> (nv: u64)
    requires
        1 <= lo < hi <= GENE_MAX,
    ensures
        nv == spec_mutate_gene(v, lo, hi, rate, hyper, old(rng).state).0,
        final(rng).state == spec_mutate_gene(v, lo, hi, rate, hyper, old(rng).state).1,
        1 <= v <= GENE_MAX ==> 1 <= nv <= GENE_MAX,
{
    let d1: u64 = rng.next_u64();
    if d1 % 1_000_000 < rate {
        let d2: u64 = rng.next_u64();
        if d2 % 1_000_000 < hyper {
            rng.gen_range(lo, hi)
        } else {
            let d3: u64 = rng.next_u64();
            drift(v, DRIFT_MIN + d3 % DRIFT_SPAN)
        }
    } else {
        v
    }
}

/// The whole-genome mutation: each gene mutated independently in a fixed
/// order (couplings first, then the masses by generation), threading the
/// stream state through.  The pair is the child genome and the final state.
#[verifier::opaque]
pub open spec fn spec_mutate(g: Genome, rate: u64, hyper: u64, s: u64) -> (Genome, u64) {
    let (grav, s1) = spec_mutate_gene(g.grav, GRAV_MIN, GRAV_MAX, rate, hyper, s);
    let (charge, s2) = spec_mutate_gene(g.charge, CHARGE_MIN, CHARGE_MAX, rate, hyper, s1);
    let (strong_coupling, s3) = spec_mutate_gene(
        g.strong_coupling,
        STRONG_MIN,
        STRONG_MAX,
        rate,
        hyper,
        s2,
    );
    let (weak_coupling, s4) = spec_mutate_gene(g.weak_coupling, WEAK_MIN, WEAK_MAX, rate, hyper, s3);
    let (mass_up_quark, s5) = spec_mutate_gene(
        g.mass_up_quark,
        MASS_UP_MIN,
        MASS_UP_MAX,
        rate,
        hyper,
        s4,
    );
    let (mass_down_quark, s6) = spec_mutate_gene(
        g.mass_down_quark,
        MASS_DOWN_MIN,
        MASS_DOWN_MAX,
        rate,
        hyper,
        s5,
    );
    let (mass_electron, s7) = spec_mutate_gene(
        g.mass_electron,
        MASS_ELECTRON_MIN,
        MASS_ELECTRON_MAX,
        rate,
        hyper,
        s6,
    );
    let (mass_strange_quark, s8) = spec_mutate_gene(
        g.mass_strange_quark,
        MASS_STRANGE_MIN,
        MASS_STRANGE_MAX,
        rate,
        hyper,
        s7,
    );
    let (mass_charm_quark, s9) = spec_mutate_gene(
        g.mass_charm_quark,
        MASS_CHARM_MIN,
        MASS_CHARM_MAX,
        rate,
        hyper,
        s8,
    );
    let (mass_muon, s10) = spec_mutate_gene(g.mass_muon, MASS_MUON_MIN, MASS_MUON_MAX, rate, hyper, s9);
    let (mass_bottom_quark, s11) = spec_mutate_gene(
        g.mass_bottom_quark,
        MASS_BOTTOM_MIN,
        MASS_BOTTOM_MAX,
        rate,
        hyper,
        s10,
    );
    let (mass_top_quark, s12) = spec_mutate_gene(
        g.mass_top_quark,
        MASS_TOP_MIN,
        MASS_TOP_MAX,
        rate,
        hyper,
        s11,
    );
    let (mass_tauon, s13) = spec_mutate_gene(
        g.mass_tauon,
        MASS_TAUON_MIN,
        MASS_TAUON_MAX,
        rate,
        hyper,
        s12,
    );
    (
        Genome {
            grav,
            charge,
            strong_coupling,
            weak_coupling,
            mass_up_quark,
            mass_down_quark,
            mass_electron,
            mass_charm_quark,
            mass_strange_quark,
            mass_muon,
            mass_top_quark,
            mass_bottom_quark,
            mass_tauon,
        },
        s13,
    )
}

impl Genome {
    /// Produces a child genome by mutating every gene independently, as
    /// `spec_mutate` prescribes; the parent is left untouched.
    pub fn mutate(&self, rng: &mut RandomStream, rate: u64, hyper: u64) -> (child: Genome)
        requires
            self.wf(),
        ensures
            child == spec_mutate(*self, rate, hyper, old(rng).state).0,
            final(rng).state == spec_mutate(*self, rate, hyper, old(rng).state).1,
            child.wf(),
    {
        proof {
            reveal(spec_mutate);
        }
        let grav = mutate_gene(self.grav, GRAV_MIN, GRAV_MAX, rate, hyper, rng);
        let charge = mutate_gene(self.charge, CHARGE_MIN, CHARGE_MAX, rate, hyper, rng);
        let strong_coupling = mutate_gene(self.strong_coupling, STRONG_MIN, STRONG_MAX, rate, hyper, rng);
        let weak_coupling = mutate_gene(self.weak_coupling, WEAK_MIN, WEAK_MAX, rate, hyper, rng);
        let mass_up_quark = mutate_gene(self.mass_up_quark, MASS_UP_MIN, MASS_UP_MAX, rate, hyper, rng);
        let mass_down_quark = mutate_gene(self.mass_down_quark, MASS_DOWN_MIN, MASS_DOWN_MAX, rate, hyper, rng);
        let mass_electron = mutate_gene(self.mass_electron, MASS_ELECTRON_MIN, MASS_ELECTRON_MAX, rate, hyper, rng);
        let mass_strange_quark = mutate_gene(self.mass_strange_quark, MASS_STRANGE_MIN, MASS_STRANGE_MAX, rate, hyper, rng);
        let mass_charm_quark = mutate_gene(self.mass_charm_quark, MASS_CHARM_MIN, MASS_CHARM_MAX, rate, hyper, rng);
        let mass_muon = mutate_gene(self.mass_muon, MASS_MUON_MIN, MASS_MUON_MAX, rate, hyper, rng);
        let mass_bottom_quark = mutate_gene(self.mass_bottom_quark, MASS_BOTTOM_MIN, MASS_BOTTOM_MAX, rate, hyper, rng);
        let mass_top_quark = mutate_gene(self.mass_top_quark, MASS_TOP_MIN, MASS_TOP_MAX, rate, hyper, rng);
        let mass_tauon = mutate_gene(self.mass_tauon, MASS_TAUON_MIN, MASS_TAUON_MAX, rate, hyper, rng);
        Genome {
            grav,
            charge,
            strong_coupling,
            weak_coupling,
            mass_up_quark,
            mass_down_quark,
            mass_electron,
            mass_charm_quark,
            mass_strange_quark,
            mass_muon,
            mass_top_quark,
            mass_bottom_quark,
            mass_tauon,
        }
    }
}

/// A genome drawn uniformly from the configured prior ranges, gene by gene
/// in declaration order, threading the stream state through.
#[verifier::opaque]
pub open spec fn spec_random_genome(s: u64) -> (Genome, u64) {
    let grav = spec_stream_range(s, GRAV_MIN, GRAV_MAX);
    let s1 = spec_stream_next_state(s);
    let charge = spec_stream_range(s1, CHARGE_MIN, CHARGE_MAX);
    let s2 = spec_stream_next_state(s1);
    let strong_coupling = spec_stream_range(s2, STRONG_MIN, STRONG_MAX);
    let s3 = spec_stream_next_state(s2);
    let weak_coupling = spec_stream_range(s3, WEAK_MIN, WEAK_MAX);
    let s4 = spec_stream_next_state(s3);
    let mass_up_quark = spec_stream_range(s4, MASS_UP_MIN, MASS_UP_MAX);
    let s5 = spec_stream_next_state(s4);
    let mass_down_quark = spec_stream_range(s5, MASS_DOWN_MIN, MASS_DOWN_MAX);
    let s6 = spec_stream_next_state(s5);
    let mass_electron = spec_stream_range(s6, MASS_ELECTRON_MIN, MASS_ELECTRON_MAX);
    let s7 = spec_stream_next_state(s6);
    let mass_strange_quark = spec_stream_range(s7, MASS_STRANGE_MIN, MASS_STRANGE_MAX);
    let s8 = spec_stream_next_state(s7);
    let mass_charm_quark = spec_stream_range(s8, MASS_CHARM_MIN, MASS_CHARM_MAX);
    let s9 = spec_stream_next_state(s8);
    let mass_muon = spec_stream_range(s9, MASS_MUON_MIN, MASS_MUON_MAX);
    let s10 = spec_stream_next_state(s9);
    let mass_bottom_quark = spec_stream_range(s10, MASS_BOTTOM_MIN, MASS_BOTTOM_MAX);
    let s11 = spec_stream_next_state(s10);
    let mass_top_quark = spec_stream_range(s11, MASS_TOP_MIN, MASS_TOP_MAX);
    let s12 = spec_stream_next_state(s11);
    let mass_tauon = spec_stream_range(s12, MASS_TAUON_MIN, MASS_TAUON_MAX);
    let s13 = spec_stream_next_state(s12);
    (
        Genome {
            grav,
            charge,
            strong_coupling,
            weak_coupling,
            mass_up_quark,
            mass_down_quark,
            mass_electron,
            mass_charm_quark,
            mass_strange_quark,
            mass_muon,
            mass_top_quark,
            mass_bottom_quark,
            mass_tauon,
        },
        s13,
    )
}

/// Draws a genome uniformly from the prior ranges, as `spec_random_genome`
/// prescribes.
pub fn random_genome(rng: &mut RandomStream) -> (g: Genome)
    ensures
        g == spec_random_genome(old(rng).state).0,
        final(rng).state == spec_random_genome(old(rng).state).1,
        g.in_prior_range(),
        g.wf(),
{
    proof {
        reveal(spec_random_genome);
    }
    let grav = rng.gen_range(GRAV_MIN, GRAV_MAX);
    let charge = rng.gen_range(CHARGE_MIN, CHARGE_MAX);
    let strong_coupling = rng.gen_range(STRONG_MIN, STRONG_MAX);
    let weak_coupling = rng.gen_range(WEAK_MIN, WEAK_MAX);
    let mass_up_quark = rng.gen_range(MASS_UP_MIN, MASS_UP_MAX);
    let mass_down_quark = rng.gen_range(MASS_DOWN_MIN, MASS_DOWN_MAX);
    let mass_electron = rng.gen_range(MASS_ELECTRON_MIN, MASS_ELECTRON_MAX);
    let mass_strange_quark = rng.gen_range(MASS_STRANGE_MIN, MASS_STRANGE_MAX);
    let mass_charm_quark = rng.gen_range(MASS_CHARM_MIN, MASS_CHARM_MAX);
    let mass_muon = rng.gen_range(MASS_MUON_MIN, MASS_MUON_MAX);
    let mass_bottom_quark = rng.gen_range(MASS_BOTTOM_MIN, MASS_BOTTOM_MAX);
    let mass_top_quark = rng.gen_range(MASS_TOP_MIN, MASS_TOP_MAX);
    let mass_tauon = rng.gen_range(MASS_TAUON_MIN, MASS_TAUON_MAX);
    Genome {
        grav,
        charge,
        strong_coupling,
        weak_coupling,
        mass_up_quark,
        mass_down_quark,
        mass_electron,
        mass_charm_quark,
        mass_strange_quark,
        mass_muon,
        mass_top_quark,
        mass_bottom_quark,
        mass_tauon,
    }
}

} // verus!
