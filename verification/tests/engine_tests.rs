use cosmic_harmonic::explore::{run_evolution, run_mapping, POPULATION_SIZE};
use cosmic_harmonic::genome::Genome;
use cosmic_harmonic::rng::RandomStream;

fn reference_genome() -> Genome {
    Genome {
        grav: 66_740_000,
        charge: 16_020_000,
        strong_coupling: 1_000_000,
        weak_coupling: 1_000_000,
        mass_up_quark: 3_000_000,
        mass_down_quark: 3_800_000,
        mass_electron: 910_900,
        mass_charm_quark: 600_000_000,
        mass_strange_quark: 50_000_000,
        mass_muon: 100_000_000,
        mass_top_quark: 80_000_000_000,
        mass_bottom_quark: 900_000_000,
        mass_tauon: 3_000_000_000,
    }
}

#[test]
fn mapping_zero_trials_is_empty() {
    let mut rng = RandomStream::from_seed(5);
    let rep = run_mapping(0, &mut rng);
    assert_eq!(rep.viable_count, 0);
    assert!(rep.records.is_empty());
}

#[test]
fn mapping_pinned_run() {
    let mut rng = RandomStream::from_seed(42);
    let rep = run_mapping(5000, &mut rng);
    assert_eq!(rep.viable_count, 233);
    assert_eq!(rep.records.len(), 2);
    let r0 = rep.records[0];
    assert_eq!(r0.score, 103_775);
    assert_eq!(r0.tier, 0);
    assert_eq!(r0.mass_up_quark, 5_167_506);
    assert_eq!(r0.mass_down_quark, 5_226_265);
    assert_eq!(r0.mass_strange_quark, 14_054_645);
    assert_eq!(r0.mass_charm_quark, 722_943_006);
    assert_eq!(r0.mass_bottom_quark, 751_722_510);
    assert_eq!(r0.mass_top_quark, 42_849_548_410);
    let r1 = rep.records[1];
    assert_eq!(r1.score, 125_056);
    assert_eq!(r1.tier, 0);
    assert_eq!(rng.state, 3_860_326_947_794_007_090);
}

#[test]
fn mapping_is_deterministic_for_equal_seeds() {
    let mut rng1 = RandomStream::from_seed(2718);
    let mut rng2 = RandomStream::from_seed(2718);
    let rep1 = run_mapping(3000, &mut rng1);
    let rep2 = run_mapping(3000, &mut rng2);
    assert_eq!(rep1, rep2);
    assert_eq!(rng1.state, rng2.state);
}

#[test]
fn mutation_is_deterministic_for_equal_seeds() {
    let g = reference_genome();
    let mut rng1 = RandomStream::from_seed(31);
    let mut rng2 = RandomStream::from_seed(31);
    let c1 = g.mutate(&mut rng1, 100_000, 50_000);
    let c2 = g.mutate(&mut rng2, 100_000, 50_000);
    assert_eq!(c1, c2);
    assert_eq!(rng1.state, rng2.state);
}

#[test]
fn mutation_pinned_child() {
    let g = reference_genome();
    let mut rng = RandomStream::from_seed(999);
    let c = g.mutate(&mut rng, 100_000, 50_000);
    assert_eq!(c.grav, 66_740_000);
    assert_eq!(c.charge, 16_020_000);
    assert_eq!(c.strong_coupling, 1_034_218);
    assert_eq!(c.weak_coupling, 1_000_000);
    assert_eq!(c.mass_up_quark, 3_000_000);
    assert_eq!(c.mass_down_quark, 3_684_586);
    assert_eq!(c.mass_electron, 910_900);
    assert_eq!(c.mass_charm_quark, 600_000_000);
    assert_eq!(c.mass_strange_quark, 50_000_000);
    assert_eq!(c.mass_muon, 100_000_000);
    assert_eq!(c.mass_top_quark, 80_000_000_000);
    assert_eq!(c.mass_bottom_quark, 861_606_900);
    assert_eq!(c.mass_tauon, 3_000_000_000);
    assert_eq!(rng.state, 13_699_396_756_335_704_438);
}

#[test]
fn mutation_with_zero_rate_copies_parent() {
    let g = reference_genome();
    let mut rng = RandomStream::from_seed(4);
    let c = g.mutate(&mut rng, 0, 0);
    assert_eq!(c, g);
}

#[test]
fn drift_mutation_is_neutral_in_expectation() {
    // with hypermutation off and the rate at one, every gene drifts by a
    // factor uniform in [0.95, 1.05); the sample mean stays at the parent
    let g = reference_genome();
    let mut rng = RandomStream::from_seed(2024);
    let trials: u64 = 20_000;
    let mut total: u64 = 0;
    for _ in 0..trials {
        let c = g.mutate(&mut rng, 1_000_000, 0);
        total += c.grav;
    }
    let mean = total as f64 / trials as f64;
    let parent = g.grav as f64;
    assert!((mean - parent).abs() < 0.005 * parent);
}

#[test]
fn hypermutation_jumps_stay_in_prior_range() {
    // rate and hypermutation chance both at one: every gene is redrawn
    // from its full prior range
    let g = reference_genome();
    let mut rng = RandomStream::from_seed(77);
    for _ in 0..50 {
        let c = g.mutate(&mut rng, 1_000_000, 1_000_000);
        assert!(66_740_000 <= c.grav && c.grav < 667_400_000);
        assert!(5_000_000 <= c.charge && c.charge < 25_000_000);
        assert!(100_000 <= c.strong_coupling && c.strong_coupling < 2_000_000);
        assert!(1_000_000 <= c.mass_up_quark && c.mass_up_quark < 6_000_000);
        assert!(100_000_000 <= c.mass_top_quark && c.mass_top_quark < 100_000_000_000);
    }
}

#[test]
fn evolution_zero_generations_reports_seed_champion() {
    let adam = reference_genome();
    let mut rng = RandomStream::from_seed(777);
    let rep = run_evolution(&adam, 0, &mut rng);
    assert_eq!(rep.population.len(), POPULATION_SIZE);
    assert_eq!(rep.history.len(), 1);
    assert_eq!(rep.history[0].generation, 0);
    assert_eq!(rep.history[0].champion_score, 412_661);
    assert!(!rep.extinct);
    // the population is exactly the first-generation mutants of the seed
    let mut check = RandomStream::from_seed(777);
    let first = adam.mutate(&mut check, 100_000, 50_000);
    assert_eq!(rep.population[0], first);
}

#[test]
fn evolution_champion_scores_never_decrease() {
    let adam = reference_genome();
    let mut rng = RandomStream::from_seed(12345);
    let rep = run_evolution(&adam, 5, &mut rng);
    assert_eq!(rep.history.len(), 6);
    for w in rep.history.windows(2) {
        assert!(w[1].champion_score >= w[0].champion_score);
    }
    for (i, rec) in rep.history.iter().enumerate() {
        assert_eq!(rec.generation, i as u64);
    }
    assert_eq!(rep.population.len(), POPULATION_SIZE);
    assert!(!rep.extinct);
}

#[test]
fn evolution_pinned_history() {
    let adam = reference_genome();
    let mut rng = RandomStream::from_seed(12345);
    let rep = run_evolution(&adam, 5, &mut rng);
    let scores: Vec<u64> = rep.history.iter().map(|r| r.champion_score).collect();
    assert_eq!(scores, vec![412_706, 412_706, 413_526, 413_539, 414_614, 414_614]);
    assert!(rep.history.iter().all(|r| r.champion_tier == 2));
}

#[test]
fn evolution_is_deterministic_for_equal_seeds() {
    let adam = reference_genome();
    let mut rng1 = RandomStream::from_seed(555);
    let mut rng2 = RandomStream::from_seed(555);
    let rep1 = run_evolution(&adam, 3, &mut rng1);
    let rep2 = run_evolution(&adam, 3, &mut rng2);
    assert_eq!(rep1, rep2);
}

#[test]
fn sterile_seed_population_goes_extinct() {
    // inverted quark masses: every first-generation mutant stays sterile
    let mut adam = reference_genome();
    adam.mass_up_quark = 5_000_000;
    adam.mass_down_quark = 3_000_000;
    let mut rng = RandomStream::from_seed(1);
    let rep = run_evolution(&adam, 10, &mut rng);
    assert!(rep.extinct);
    assert_eq!(rep.history.len(), 1);
    assert_eq!(rep.history[0].champion_score, 0);
    assert_eq!(rep.population.len(), POPULATION_SIZE);
}

#[test]
fn stream_draws_stay_in_range() {
    let mut rng = RandomStream::from_seed(9);
    for _ in 0..1000 {
        let d = rng.gen_range(10, 20);
        assert!((10..20).contains(&d));
    }
}
