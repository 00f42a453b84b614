use cosmic_harmonic::fitness::{calculate_fitness, universe_type_name};
use cosmic_harmonic::genome::{Genome, GENE_MAX};

fn reference_genome() -> Genome {
    Genome {
        grav: 66_740_000,
        charge: 16_020_000,
        strong_coupling: 1_000_000,
        weak_coupling: 1_000_000,
        mass_up_quark: 3_000_000,
        mass_down_quark: 3_800_000,
        mass_electron: 910_900,
        mass_charm_quark: 600_000_000,
        mass_strange_quark: 50_000_000,
        mass_muon: 100_000_000,
        mass_top_quark: 80_000_000_000,
        mass_bottom_quark: 900_000_000,
        mass_tauon: 3_000_000_000,
    }
}

#[test]
fn inverted_quark_masses_are_sterile() {
    // up 5e-30 kg, down 3e-30 kg: proton analogue heavier than neutron
    let mut g = reference_genome();
    g.mass_up_quark = 5_000_000;
    g.mass_down_quark = 3_000_000;
    let r = calculate_fitness(&g);
    assert_eq!(r.score, 0);
    assert_eq!(r.tier, 0);
}

#[test]
fn equal_quark_masses_are_sterile() {
    let mut g = reference_genome();
    g.mass_up_quark = 4_000_000;
    g.mass_down_quark = 4_000_000;
    let r = calculate_fitness(&g);
    assert_eq!(r.score, 0);
    assert_eq!(r.tier, 0);
}

#[test]
fn dominant_decay_channel_is_sterile() {
    // up + electron analogues no heavier than down: decay dominates
    let mut g = reference_genome();
    g.mass_up_quark = 2_000_000;
    g.mass_down_quark = 4_700_000;
    g.mass_electron = 911_000;
    let r = calculate_fitness(&g);
    assert_eq!(r.score, 0);
    assert_eq!(r.tier, 0);
}

#[test]
fn real_world_like_genome_reaches_stellar_tier() {
    // charge ~1.602e-19 C, strong coupling ~1.0, down > up: well past the
    // first gate
    let r = calculate_fitness(&reference_genome());
    assert_eq!(r.score, 400_845);
    assert_eq!(r.tier, 2);
    assert!(r.score > 150_000);
    assert!(r.tier >= 1);
}

#[test]
fn atomic_layer_alone_stays_sterile_tier() {
    // a thin stability margin and no electromagnetic bond bonus stays
    // under the first gate
    let mut g = reference_genome();
    g.mass_up_quark = 4_000_000;
    g.mass_down_quark = 4_100_000;
    g.mass_electron = 150_000;
    g.charge = 5_000_000;
    let r = calculate_fitness(&g);
    assert!(r.score < 150_000);
    assert_eq!(r.tier, 0);
}

#[test]
fn score_never_exceeds_budget() {
    let r = calculate_fitness(&reference_genome());
    assert!(r.score <= 1_000_000);
    assert!(r.tier <= 4);
}

#[test]
fn tier_names() {
    assert_eq!(universe_type_name(0), "Sterile");
    assert_eq!(universe_type_name(1), "Chemical");
    assert_eq!(universe_type_name(2), "Stellar");
    assert_eq!(universe_type_name(3), "Complex");
    assert_eq!(universe_type_name(4), "Reproductive");
    assert_eq!(universe_type_name(9), "Unknown");
}

#[test]
fn genome_builder_accepts_positive_genes() {
    let g = reference_genome();
    let built = Genome::new(
        g.grav,
        g.charge,
        g.strong_coupling,
        g.weak_coupling,
        g.mass_up_quark,
        g.mass_down_quark,
        g.mass_electron,
        g.mass_charm_quark,
        g.mass_strange_quark,
        g.mass_muon,
        g.mass_top_quark,
        g.mass_bottom_quark,
        g.mass_tauon,
    );
    assert_eq!(built, Some(g));
}

#[test]
fn genome_builder_rejects_zero_gene() {
    let g = reference_genome();
    let built = Genome::new(
        g.grav,
        0,
        g.strong_coupling,
        g.weak_coupling,
        g.mass_up_quark,
        g.mass_down_quark,
        g.mass_electron,
        g.mass_charm_quark,
        g.mass_strange_quark,
        g.mass_muon,
        g.mass_top_quark,
        g.mass_bottom_quark,
        g.mass_tauon,
    );
    assert_eq!(built, None);
}

#[test]
fn genome_builder_rejects_oversized_gene() {
    let g = reference_genome();
    let built = Genome::new(
        g.grav,
        g.charge,
        g.strong_coupling,
        g.weak_coupling,
        GENE_MAX + 1,
        g.mass_down_quark,
        g.mass_electron,
        g.mass_charm_quark,
        g.mass_strange_quark,
        g.mass_muon,
        g.mass_top_quark,
        g.mass_bottom_quark,
        g.mass_tauon,
    );
    assert_eq!(built, None);
}
