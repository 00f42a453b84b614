use cosmic_harmonic::genome::Genome;
use cosmic_harmonic::num::{exp_neg_micro, isqrt, log10_micro, log2_micro};
use cosmic_harmonic::physics::PhysicsEngine;

fn reference_genome() -> Genome {
    Genome {
        grav: 66_740_000,
        charge: 16_020_000,
        strong_coupling: 1_000_000,
        weak_coupling: 1_000_000,
        mass_up_quark: 3_000_000,
        mass_down_quark: 3_800_000,
        mass_electron: 910_900,
        mass_charm_quark: 600_000_000,
        mass_strange_quark: 50_000_000,
        mass_muon: 100_000_000,
        mass_top_quark: 80_000_000_000,
        mass_bottom_quark: 900_000_000,
        mass_tauon: 3_000_000_000,
    }
}

#[test]
fn isqrt_small_values() {
    assert_eq!(isqrt(0), 0);
    assert_eq!(isqrt(1), 1);
    assert_eq!(isqrt(15), 3);
    assert_eq!(isqrt(16), 4);
    assert_eq!(isqrt(1_000_000_000_000), 1_000_000);
}

#[test]
fn isqrt_large_value() {
    let x: u128 = u64::MAX as u128;
    let r = isqrt(x);
    assert!((r as u128) * (r as u128) <= x);
    assert!(((r as u128) + 1) * ((r as u128) + 1) > x);
}

#[test]
fn exp_neg_exact_values() {
    assert_eq!(exp_neg_micro(0), 1_000_000);
    // e^-1 in micro units
    assert_eq!(exp_neg_micro(1_000_000), 367_879);
    // e^(-ln 2) is one half
    assert_eq!(exp_neg_micro(693_147), 500_000);
    // deep tail rounds to zero
    assert_eq!(exp_neg_micro(20_000_000), 0);
}

#[test]
fn exp_neg_monotone_samples() {
    let mut prev = exp_neg_micro(0);
    for k in 1..40u64 {
        let cur = exp_neg_micro(k * 250_000);
        assert!(cur <= prev);
        prev = cur;
    }
}

#[test]
fn logarithm_exact_values() {
    assert_eq!(log2_micro(1), 0);
    assert_eq!(log2_micro(1024), 10_000_000);
    assert_eq!(log10_micro(1), 0);
    // truncation keeps it just below three decades
    assert_eq!(log10_micro(1000), 2_999_999);
}

#[test]
fn alpha_for_reference_charge() {
    let engine = PhysicsEngine::new(reference_genome());
    // e = 1.602e-19 C gives a fine-structure ratio near 1/137
    assert_eq!(engine.alpha_nano, 7_295_743);
}

#[test]
fn nucleon_analogue_masses() {
    let engine = PhysicsEngine::new(reference_genome());
    assert_eq!(engine.mass_proton_analog(), 9_800_000);
    assert_eq!(engine.mass_neutron_analog(), 10_600_000);
}

#[test]
fn nuclear_score_reference_value() {
    let engine = PhysicsEngine::new(reference_genome());
    assert_eq!(engine.nuclear_stability_score(), 138_445);
}

#[test]
fn stellar_viability_reference_value() {
    let engine = PhysicsEngine::new(reference_genome());
    assert_eq!(engine.calculate_stellar_viability(), 992_236);
}

#[test]
fn heavy_elements_window() {
    let mut g = reference_genome();
    g.strong_coupling = 118_000;
    assert_eq!(PhysicsEngine::new(g).heavy_elements_viability(), 1_000_000);
    g.strong_coupling = 150_000;
    assert_eq!(PhysicsEngine::new(g).heavy_elements_viability(), 728_814);
    // far outside the tolerance window
    g.strong_coupling = 1_000_000;
    assert_eq!(PhysicsEngine::new(g).heavy_elements_viability(), 0);
}

#[test]
fn compact_object_log_mass_reference_value() {
    let engine = PhysicsEngine::new(reference_genome());
    // about 3.23 decades above the eight-solar-mass target
    assert_eq!(engine.chandrasekhar_log_mass(), 3_227_030);
}

#[test]
fn black_hole_potential_reference_value() {
    let engine = PhysicsEngine::new(reference_genome());
    assert_eq!(engine.calculate_black_hole_potential(), 5_478);
}

#[test]
fn derivation_is_idempotent() {
    let g = reference_genome();
    let e1 = PhysicsEngine::new(g);
    let e2 = PhysicsEngine::new(g);
    assert_eq!(e1.alpha_nano, e2.alpha_nano);
    assert_eq!(e1.nuclear_stability_score(), e2.nuclear_stability_score());
    assert_eq!(e1.calculate_stellar_viability(), e2.calculate_stellar_viability());
    assert_eq!(e1.heavy_elements_viability(), e2.heavy_elements_viability());
    assert_eq!(e1.calculate_black_hole_potential(), e2.calculate_black_hole_potential());
    assert_eq!(e1.chandrasekhar_log_mass(), e2.chandrasekhar_log_mass());
}
